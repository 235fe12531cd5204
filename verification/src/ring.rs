//! Bounded overwrite-oldest store of mono 16-bit PCM samples.
//!
//! The storage itself is the heap ring buffer of the `ringbuf` crate, held
//! opaquely and reached only through a small trusted layer; everything above
//! that layer — the FIFO eviction model, `push_overwrite`, `pop_up_to`, and
//! the retention law — is verified.

use vstd::prelude::*;
use ringbuf::Rb;

verus! {

use crate::BUFFER_CAPACITY;

/// Owns the heap-allocated ring buffer of the `ringbuf` crate. The verifier
/// sees nothing inside a value of this type; its state is reached through
/// `ring_contents` and `ring_capacity` alone.
#[verifier::external_body]
pub struct SampleRing {
    inner: ringbuf::HeapRb<i16>,
}

/// The buffered samples, oldest first.
pub uninterp spec fn ring_contents(rb: SampleRing) -> Seq<i16>;

/// The fixed capacity the ring was constructed with.
pub uninterp spec fn ring_capacity(rb: SampleRing) -> nat;

/// Relies on ringbuf's `SharedRb::new`: a fresh, empty ring buffer with the
/// given capacity. The callee panics on capacity zero, so that input is
/// excluded here.
#[verifier::external_body]
fn ring_new(capacity: usize) -> (rb: SampleRing)
    requires
        1 <= capacity,
    ensures
        ring_contents(rb) == Seq::<i16>::empty(),
        ring_capacity(rb) == capacity as nat,
{
    SampleRing { inner: ringbuf::HeapRb::new(capacity) }
}

/// Relies on ringbuf's `Rb::push_overwrite`: when the buffer is full the
/// oldest sample is removed first, then the new sample is appended; the
/// evicted sample, if any, is returned.
#[verifier::external_body]
fn ring_push_overwrite(rb: &mut SampleRing, sample: i16) -> (evicted: Option<i16>)
    ensures
        ring_capacity(*final(rb)) == ring_capacity(*old(rb)),
        ring_contents(*old(rb)).len() < ring_capacity(*old(rb)) ==> {
            &&& ring_contents(*final(rb)) == ring_contents(*old(rb)).push(sample)
            &&& evicted is None
        },
        ring_contents(*old(rb)).len() == ring_capacity(*old(rb)) ==> {
            &&& ring_contents(*final(rb)) == ring_contents(*old(rb)).drop_first().push(sample)
            &&& evicted == Some(ring_contents(*old(rb))[0])
        },
{
    rb.inner.push_overwrite(sample)
}

/// Relies on ringbuf's `Consumer::pop` (through `Rb::pop`): removes and
/// returns the oldest sample, or returns `None` on an empty buffer.
#[verifier::external_body]
fn ring_pop(rb: &mut SampleRing) -> (popped: Option<i16>)
    ensures
        ring_capacity(*final(rb)) == ring_capacity(*old(rb)),
        ring_contents(*old(rb)).len() == 0 ==> {
            &&& popped is None
            &&& ring_contents(*final(rb)) == ring_contents(*old(rb))
        },
        ring_contents(*old(rb)).len() > 0 ==> {
            &&& popped == Some(ring_contents(*old(rb))[0])
            &&& ring_contents(*final(rb)) == ring_contents(*old(rb)).drop_first()
        },
{
    rb.inner.pop()
}

/// Relies on ringbuf's `Rb::len` (`RbBase::occupied_len`): the number of
/// buffered samples (exact under exclusive access).
#[verifier::external_body]
fn ring_len(rb: &SampleRing) -> (n: usize)
    ensures
        n as nat == ring_contents(*rb).len(),
{
    rb.inner.len()
}

/// Relies on ringbuf's `Rb::capacity`: the constant capacity of the buffer.
#[verifier::external_body]
fn ring_cap(rb: &SampleRing) -> (n: usize)
    ensures
        n as nat == ring_capacity(*rb),
{
    rb.inner.capacity()
}

/// One push with overwrite-oldest semantics, on the mathematical model:
/// append when below capacity, else evict the oldest sample and append.
pub open spec fn push_model(s: Seq<i16>, cap: nat, x: i16) -> Seq<i16> {
    if s.len() < cap {
        s.push(x)
    } else {
        s.drop_first().push(x)
    }
}

/// A whole sequence of pushes, oldest first, on the mathematical model.
pub open spec fn pushes_model(s: Seq<i16>, cap: nat, xs: Seq<i16>) -> Seq<i16>
    decreases xs.len(),
{
    if xs.len() == 0 {
        s
    } else {
        pushes_model(push_model(s, cap, xs.first()), cap, xs.drop_first())
    }
}

/// Bounded FIFO of mono 16-bit samples; a push beyond capacity evicts the
/// oldest sample. Its view is the buffered samples, oldest first.
pub struct SampleRingBuffer {
    ring: SampleRing,
}

impl View for SampleRingBuffer {
    type V = Seq<i16>;

    closed spec fn view(&self) -> Seq<i16> {
        ring_contents(self.ring)
    }
}

impl SampleRingBuffer {
    /// The capacity the buffer was constructed with.
    pub closed spec fn cap(&self) -> nat {
        ring_capacity(self.ring)
    }

    /// Invariant: the buffer never holds more than its (positive) capacity.
    pub open spec fn wf(&self) -> bool {
        &&& 1 <= self.cap()
        &&& self@.len() <= self.cap()
    }

    /// An empty buffer with the given capacity.
    pub fn with_capacity(capacity: usize) -> (buf: Self)
        requires
            1 <= capacity,
        ensures
            buf.wf(),
            buf@ == Seq::<i16>::empty(),
            buf.cap() == capacity as nat,
    {
        SampleRingBuffer { ring: ring_new(capacity) }
    }

    /// An empty buffer sized for about two seconds of capture audio.
    pub fn new() -> (buf: Self)
        ensures
            buf.wf(),
            buf@ == Seq::<i16>::empty(),
            buf.cap() == BUFFER_CAPACITY as nat,
    {
        Self::with_capacity(BUFFER_CAPACITY)
    }

    /// The number of currently buffered samples.
    pub fn len(&self) -> (n: usize)
        ensures
            n as nat == self@.len(),
    {
        ring_len(&self.ring)
    }

    /// The fixed capacity.
    pub fn capacity(&self) -> (n: usize)
        ensures
            n as nat == self.cap(),
    {
        ring_cap(&self.ring)
    }

    /// Inserts one sample; at capacity the oldest sample is evicted first.
    /// Never fails.
    pub fn push_overwrite(&mut self, sample: i16)
        requires
            old(self).wf(),
        ensures
            final(self).wf(),
            final(self).cap() == old(self).cap(),
            final(self)@ == push_model(old(self)@, old(self).cap(), sample),
    {
        let _ = ring_push_overwrite(&mut self.ring, sample);
    }

    /// Removes and returns up to `n` oldest samples, in original order;
    /// returns fewer (possibly zero) when less data is buffered. Never
    /// blocks and never pads.
    pub fn pop_up_to(&mut self, n: usize) -> (samples: Vec<i16>)
        requires
            old(self).wf(),
        ensures
            final(self).wf(),
            final(self).cap() == old(self).cap(),
            samples@.len() == if n as nat <= old(self)@.len() { n as nat } else { old(self)@.len() },
            samples@ == old(self)@.take(samples@.len() as int),
            final(self)@ == old(self)@.skip(samples@.len() as int),
    {
        let mut samples: Vec<i16> = Vec::new();
        let avail = ring_len(&self.ring);
        let count = if n <= avail { n } else { avail };
        let mut i: usize = 0;
        while i < count
            invariant
                i <= count,
                count as nat <= old(self)@.len(),
                self.cap() == old(self).cap(),
                self.wf(),
                samples@.len() == i as nat,
                samples@ == old(self)@.take(i as int),
                self@ == old(self)@.skip(i as int),
            decreases count - i,
        {
            let popped = ring_pop(&mut self.ring);
            match popped {
                Some(sample) => {
                    samples.push(sample);
                }
                None => {
                    // Unreachable: the buffer still holds `count - i` samples.
                    proof {
                        assert(false);
                    }
                }
            }
            i = i + 1;
            proof {
                assert(samples@ =~= old(self)@.take(i as int));
                assert(self@ =~= old(self)@.skip(i as int));
            }
        }
        samples
    }
}

/// Retention law: starting from any well-formed contents, after a sequence
/// of pushes at least as long as the capacity, exactly the most recent
/// `cap` pushed samples remain, in their original relative order.
pub proof fn lemma_pushes_keep_most_recent(s: Seq<i16>, cap: nat, xs: Seq<i16>)
    requires
        1 <= cap,
        s.len() <= cap,
        cap <= xs.len(),
    ensures
        pushes_model(s, cap, xs) == xs.skip(xs.len() - cap),
{
    lemma_pushes_model_general(s, cap, xs);
    assert((s + xs).skip(s.len() + xs.len() - cap) =~= xs.skip(xs.len() - cap));
}

/// General form of the retention law: the buffer after a sequence of pushes
/// holds the last `cap` elements of the old contents followed by the pushed
/// samples (all of them when they fit).
pub proof fn lemma_pushes_model_general(s: Seq<i16>, cap: nat, xs: Seq<i16>)
    requires
        1 <= cap,
        s.len() <= cap,
    ensures
        s.len() + xs.len() <= cap ==> pushes_model(s, cap, xs) == s + xs,
        s.len() + xs.len() > cap ==> pushes_model(s, cap, xs) == (s + xs).skip(s.len() + xs.len() - cap),
    decreases xs.len(),
{
    if xs.len() == 0 {
        assert(s + xs =~= s);
    } else {
        let x = xs.first();
        let s1 = push_model(s, cap, x);
        lemma_pushes_model_general(s1, cap, xs.drop_first());
        assert(s1 + xs.drop_first() =~= if s.len() < cap {
            s + xs
        } else {
            (s + xs).skip(1)
        });
        if s.len() + xs.len() > cap {
            if s.len() < cap {
                assert((s1 + xs.drop_first()).skip(s1.len() + xs.drop_first().len() - cap) =~= (s
                    + xs).skip(s.len() + xs.len() - cap));
            } else {
                assert((s1 + xs.drop_first()).skip(s1.len() + xs.drop_first().len() - cap) =~= (s
                    + xs).skip(s.len() + xs.len() - cap));
            }
        }
    }
}

} // verus!
