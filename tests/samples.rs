use tone_keypad::samples::{center_sample, volume_level};

#[test]
fn samples_are_centred_on_the_midpoint() {
    assert_eq!(center_sample(128), 0);
    assert_eq!(center_sample(0), -128);
    assert_eq!(center_sample(255), 127);
    assert_eq!(center_sample(200), 72);
}

#[test]
fn volume_of_silence_and_of_empty_batch_is_zero() {
    assert_eq!(volume_level(&[]), 0);
    assert_eq!(volume_level(&[5, 5, 5]), 0);
}

#[test]
fn volume_exact_values() {
    // spread 255: full bar
    assert_eq!(volume_level(&[-128, 0, 127]), 3);
    // spread 250: just under full, lifted by the small offset
    assert_eq!(volume_level(&[-125, 125]), 3);
    // spread 128
    assert_eq!(volume_level(&[0, 128]), 2);
    // spread 20
    assert_eq!(volume_level(&[10, -10, 3]), 1);
    // spread 10
    assert_eq!(volume_level(&[-5, 5]), 0);
}

#[test]
fn volume_spread_is_clamped() {
    assert_eq!(volume_level(&[i16::MIN, i16::MAX]), 3);
    assert_eq!(volume_level(&[-1000, 1000]), 3);
}

#[test]
fn volume_is_monotone_in_spread() {
    let mut last = 0u8;
    for spread in 0..=300i16 {
        let v = volume_level(&[0, spread]);
        assert!(v >= last);
        assert!(v <= 3);
        last = v;
    }
}
