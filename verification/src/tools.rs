//! Classification of tool operations and the shape of their results.
//!
//! The daemon executes tools (shell commands, file access, and the like) on
//! behalf of its user. Which kinds of operation must first be confirmed
//! through the consent dialog is a fixed rule, kept here and verified; the
//! dialog itself, and the tool executors, are operating-system calls that
//! live outside the library.

use vstd::prelude::*;

verus! {

/// A kind of operation that a tool may perform.
#[derive(Clone, Copy, Debug, PartialEq, Eq, Structural)]
pub enum OperationType {
    /// Execute an arbitrary shell command.
    Command,
    /// Execute a scripting-automation snippet.
    AppleScript,
    /// Write a file.
    WriteFile,
    /// Read a file.
    ReadFile,
    /// Take a screenshot (auto-approved by user preference).
    Screenshot,
    /// Access the clipboard (auto-approved by user preference).
    Clipboard,
    /// Switch the foreground application.
    SwitchApp,
}

impl OperationType {
    /// Whether this operation requires user consent before it runs: every
    /// kind does, except screenshots and clipboard access.
    pub fn requires_consent(&self) -> (needed: bool)
        ensures
            needed == !(*self is Screenshot || *self is Clipboard),
    {
        matches!(
            self,
            Self::Command | Self::AppleScript | Self::WriteFile | Self::ReadFile | Self::SwitchApp
        )
    }

    /// The name under which the operation is shown to the user.
    pub fn display_name(&self) -> (name: &'static str)
        ensures
            *self is Command ==> name@ == "Execute Command"@,
            *self is AppleScript ==> name@ == "Run AppleScript"@,
            *self is WriteFile ==> name@ == "Write File"@,
            *self is ReadFile ==> name@ == "Read File"@,
            *self is Screenshot ==> name@ == "Take Screenshot"@,
            *self is Clipboard ==> name@ == "Access Clipboard"@,
            *self is SwitchApp ==> name@ == "Switch Application"@,
    {
        match self {
            Self::Command => "Execute Command",
            Self::AppleScript => "Run AppleScript",
            Self::WriteFile => "Write File",
            Self::ReadFile => "Read File",
            Self::Screenshot => "Take Screenshot",
            Self::Clipboard => "Access Clipboard",
            Self::SwitchApp => "Switch Application",
        }
    }
}

/// Result of one tool execution: whether it succeeded, and the text handed
/// back to the caller.
#[derive(Debug)]
pub struct ToolResult {
    /// Whether the tool ran to completion.
    pub success: bool,
    /// The tool's output, or a description of its failure.
    pub output: String,
}

} // verus!
