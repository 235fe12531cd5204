//! Frame energy for voice-activity detection.
//!
//! The detector classifies a frame as speech when its scaled mean-square
//! amplitude exceeds a fixed threshold: each sample is normalized to
//! `[-1, 1]` by dividing by 32768, squared, averaged over the frame and
//! scaled by 10000, and the result is compared against 500. All of that is
//! exact rational arithmetic, so the comparison is carried out on integers:
//! the raw sum of squared samples stands for the energy, and
//! `10000 * sum > 500 * len * 32768^2` holds exactly when the scaled
//! mean-square energy exceeds the threshold.

use vstd::prelude::*;

verus! {

use vstd::math::abs;

/// Scale factor that turns the mean of the normalized squared samples into
/// a human-scaled energy value.
pub const ENERGY_SCALE: u64 = 10000;

/// Detection threshold on the scaled energy value.
pub const ENERGY_THRESHOLD: u64 = 500;

/// Square of the normalization divisor (samples are divided by 32768).
pub const NORM_SQUARED: u64 = 32768 * 32768;

/// The raw energy of a frame: the sum of its squared samples.
pub open spec fn sum_squares(s: Seq<i16>) -> int
    decreases s.len(),
{
    if s.len() == 0 {
        0
    } else {
        sum_squares(s.drop_last()) + s.last() * s.last()
    }
}

/// Whether a raw energy, over a frame of `len` samples, exceeds the
/// detection threshold: exactly the comparison
/// `(sum / len / 32768^2) * 10000 > 500` cleared of its divisions.
pub open spec fn energy_exceeds_threshold(sum_sq: int, len: nat) -> bool {
    ENERGY_SCALE * sum_sq > ENERGY_THRESHOLD * len * NORM_SQUARED
}

/// Whether a frame is classified as speech.
pub open spec fn frame_above_threshold(s: Seq<i16>) -> bool {
    energy_exceeds_threshold(sum_squares(s), s.len())
}

/// A squared sample is at most the square of the full-scale value.
proof fn lemma_square_bounds(x: i16)
    ensures
        0 <= x * x <= NORM_SQUARED,
{
    assert(0 <= x * x <= 32768 * 32768) by (nonlinear_arith)
        requires
            -32768 <= x <= 32767,
    ;
}

/// The raw energy is never negative.
pub proof fn lemma_sum_squares_nonneg(s: Seq<i16>)
    ensures
        0 <= sum_squares(s),
    decreases s.len(),
{
    if s.len() > 0 {
        lemma_sum_squares_nonneg(s.drop_last());
        lemma_square_bounds(s.last());
    }
}

/// An all-zero frame has raw energy exactly zero, so its scaled energy is
/// exactly zero as well.
pub proof fn lemma_zero_frame_energy(s: Seq<i16>)
    requires
        forall|i: int| 0 <= i < s.len() ==> s[i] == 0,
    ensures
        sum_squares(s) == 0,
    decreases s.len(),
{
    if s.len() > 0 {
        lemma_zero_frame_energy(s.drop_last());
    }
}

/// Energy is monotone in sample magnitude: raising no sample's magnitude
/// never lowers the energy of a frame of fixed length.
pub proof fn lemma_energy_monotone(a: Seq<i16>, b: Seq<i16>)
    requires
        a.len() == b.len(),
        forall|i: int| 0 <= i < a.len() ==> abs(a[i] as int) <= abs(b[i] as int),
    ensures
        sum_squares(a) <= sum_squares(b),
    decreases a.len(),
{
    if a.len() > 0 {
        lemma_energy_monotone(a.drop_last(), b.drop_last());
        let x = a.last() as int;
        let y = b.last() as int;
        assert(x * x <= y * y) by (nonlinear_arith)
            requires
                abs(x) <= abs(y),
        ;
    }
}

/// The raw energy of a frame: the sum of its squared samples. An all-zero
/// frame yields exactly zero.
pub fn frame_energy(frame: &[i16]) -> (sum_sq: u64)
    requires
        frame@.len() <= 0x1_0000_0000,
    ensures
        sum_sq == sum_squares(frame@),
{
    let n = frame.len();
    let mut sum: u64 = 0;
    let mut i: usize = 0;
    while i < n
        invariant
            i <= n,
            n == frame@.len() <= 0x1_0000_0000,
            sum == sum_squares(frame@.take(i as int)),
            sum <= (i as int) * NORM_SQUARED,
        decreases n - i,
    {
        let s = frame[i];
        proof {
            lemma_square_bounds(s);
            assert(frame@.take(i + 1).drop_last() =~= frame@.take(i as int));
            assert(frame@.take(i + 1).last() == frame@[i as int]);
            assert(sum + s * s <= (i + 1) * NORM_SQUARED) by (nonlinear_arith)
                requires
                    sum <= (i as int) * NORM_SQUARED,
                    0 <= s * s <= NORM_SQUARED,
            ;
            assert((i + 1) * NORM_SQUARED <= 0x1_0000_0001 * 0x4000_0000) by (nonlinear_arith)
                requires
                    0 <= i + 1 <= 0x1_0000_0001,
            ;
        }
        let sq: u64 = (s as i64 * s as i64) as u64;
        sum = sum + sq;
        i = i + 1;
    }
    proof {
        assert(frame@.take(n as int) =~= frame@);
    }
    sum
}

/// Whether a raw energy over `len` samples exceeds the detection threshold;
/// agrees exactly with the scaled mean-square comparison against 500.
pub fn raw_energy_exceeds(sum_sq: u64, len: usize) -> (above: bool)
    ensures
        above == energy_exceeds_threshold(sum_sq as int, len as nat),
{
    proof {
        assert(ENERGY_SCALE * (sum_sq as int) < 0x10000 * 0x1_0000_0000_0000_0000_0000_0000_0000)
            by (nonlinear_arith)
            requires
                0 <= sum_sq < 0x1_0000_0000_0000_0000,
        ;
        assert(ENERGY_THRESHOLD * (len as int) < 0x10000 * 0x1_0000_0000_0000_0000)
            by (nonlinear_arith)
            requires
                0 <= len < 0x1_0000_0000_0000_0000,
        ;
    }
    let lhs: u128 = (ENERGY_SCALE as u128) * (sum_sq as u128);
    let mid: u128 = (ENERGY_THRESHOLD as u128) * (len as u128);
    proof {
        assert(mid * NORM_SQUARED < 0x10000 * 0x1_0000_0000_0000_0000 * 0x1_0000_0000)
            by (nonlinear_arith)
            requires
                0 <= mid < 0x10000 * 0x1_0000_0000_0000_0000,
        ;
    }
    let rhs: u128 = mid * (NORM_SQUARED as u128);
    lhs > rhs
}

/// Whether a frame is classified as speech: its scaled mean-square energy
/// exceeds the detection threshold.
pub fn frame_is_speech(frame: &[i16]) -> (above: bool)
    requires
        frame@.len() <= 0x1_0000_0000,
    ensures
        above == frame_above_threshold(frame@),
{
    proof {
        lemma_sum_squares_nonneg(frame@);
    }
    let sum_sq = frame_energy(frame);
    raw_energy_exceeds(sum_sq, frame.len())
}

} // verus!
