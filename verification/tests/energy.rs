use eva_daemon::energy::{frame_energy, frame_is_speech, raw_energy_exceeds};
use eva_daemon::FRAME_SIZE;

#[test]
fn zero_frame_has_energy_exactly_zero() {
    let frame = vec![0i16; FRAME_SIZE];
    assert_eq!(frame_energy(&frame), 0);
    assert!(!frame_is_speech(&frame));
}

#[test]
fn energy_is_the_sum_of_squared_samples() {
    assert_eq!(frame_energy(&[]), 0);
    assert_eq!(frame_energy(&[3, 4]), 25);
    assert_eq!(frame_energy(&[-3, 4]), 25);
    assert_eq!(frame_energy(&[-32768]), 1 << 30);
    assert_eq!(frame_energy(&[32767]), 32767 * 32767);
}

#[test]
fn energy_is_monotone_in_magnitude() {
    let low = vec![100i16; FRAME_SIZE];
    let high = vec![200i16; FRAME_SIZE];
    assert!(frame_energy(&low) < frame_energy(&high));
    // Sign does not matter, only magnitude.
    let negative = vec![-200i16; FRAME_SIZE];
    assert_eq!(frame_energy(&high), frame_energy(&negative));
}

#[test]
fn threshold_boundary_is_exact() {
    // For a 512-sample frame the scaled mean-square energy exceeds 500
    // exactly when the raw sum of squares exceeds 512 * 32768^2 / 20.
    assert!(!raw_energy_exceeds(27_487_790_694, FRAME_SIZE));
    assert!(raw_energy_exceeds(27_487_790_695, FRAME_SIZE));
    assert!(!raw_energy_exceeds(0, FRAME_SIZE));
    assert!(!raw_energy_exceeds(0, 0));
}

#[test]
fn speech_classification_follows_amplitude() {
    // Scaled energy of a constant frame of amplitude a is (a/32768)^2 * 10000:
    // about 456 at amplitude 7000, about 596 at amplitude 8000.
    let quiet = vec![7000i16; FRAME_SIZE];
    assert!(!frame_is_speech(&quiet));
    let loud = vec![8000i16; FRAME_SIZE];
    assert!(frame_is_speech(&loud));
    let tone = vec![20000i16; FRAME_SIZE];
    assert!(frame_is_speech(&tone));
}
