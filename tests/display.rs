use tone_keypad::display::{render, LedColor};
use tone_keypad::keypad::KeypadSnapshot;
use tone_keypad::power::{PowerTable, POWER_UNIT};
use tone_keypad::tones::Tone;

#[test]
fn silent_frame_is_dark() {
    let snap = KeypadSnapshot::from_powers(&PowerTable::new());
    let frame = render(&snap, 0);
    for x in 0..8 {
        for y in 0..8 {
            assert_eq!(frame.pixels[x][y], LedColor::Off, "({}, {})", x, y);
        }
    }
}

#[test]
fn keypad_keys_light_by_state() {
    let mut table = PowerTable::new();
    table.set(Tone::RowA, 5 * POWER_UNIT);
    table.set(Tone::Col1, 5 * POWER_UNIT);
    let frame = render(&KeypadSnapshot::from_powers(&table), 0);
    // key 1 sits at grid row 3, column 0
    assert_eq!(frame.pixels[0][7], LedColor::Red);
    // key 2: only its row tone is present
    assert_eq!(frame.pixels[1][7], LedColor::Green);
    // key 4: only its column tone is present
    assert_eq!(frame.pixels[0][6], LedColor::Green);
    // key 5: neither
    assert_eq!(frame.pixels[1][6], LedColor::Off);
    // key *: column tone only
    assert_eq!(frame.pixels[0][4], LedColor::Green);
}

#[test]
fn remote_bar_with_tiers_and_trigger_cap() {
    let mut table = PowerTable::new();
    // Channel- at 5.0: bar height 6, triggered
    table.set(Tone::ChannelDn, 5 * POWER_UNIT);
    // Volume at 0.2: bar height 1, not triggered
    table.set(Tone::Volume, POWER_UNIT / 5);
    let frame = render(&KeypadSnapshot::from_powers(&table), 0);
    let col = &frame.pixels[4];
    assert_eq!(col[0], LedColor::Green);
    assert_eq!(col[4], LedColor::Green);
    assert_eq!(col[5], LedColor::Yellow);
    assert_eq!(col[6], LedColor::Red);
    assert_eq!(col[7], LedColor::Red);
    let col = &frame.pixels[5];
    assert_eq!(col[0], LedColor::Green);
    for y in 1..8 {
        assert_eq!(col[y], LedColor::Off);
    }
    assert_eq!(frame.pixels[6][0], LedColor::Off);
}

#[test]
fn full_remote_bar() {
    let mut table = PowerTable::new();
    table.set(Tone::ChannelUp, 10 * POWER_UNIT);
    let frame = render(&KeypadSnapshot::from_powers(&table), 0);
    let col = &frame.pixels[7];
    for y in 0..6 {
        assert_eq!(col[y], LedColor::Green);
    }
    assert_eq!(col[6], LedColor::Yellow);
    assert_eq!(col[7], LedColor::Red);
}

#[test]
fn volume_bar_levels() {
    let snap = KeypadSnapshot::from_powers(&PowerTable::new());
    let frame = render(&snap, 2);
    assert_eq!(frame.pixels[0][0], LedColor::Green);
    assert_eq!(frame.pixels[0][1], LedColor::Green);
    assert_eq!(frame.pixels[0][2], LedColor::Off);
    let frame = render(&snap, 3);
    assert_eq!(frame.pixels[0][0], LedColor::Green);
    assert_eq!(frame.pixels[0][1], LedColor::Green);
    assert_eq!(frame.pixels[0][2], LedColor::Yellow);
    assert_eq!(frame.pixels[0][3], LedColor::Red);
    assert_eq!(frame.pixels[0][4], LedColor::Off);
    assert_eq!(frame.pixels[1][0], LedColor::Off);
}
