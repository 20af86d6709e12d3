use tone_keypad::catalog::{DtmfKey, DtmfSignals, RemoteKey, RemoteSignals};
use tone_keypad::dtmf::DtmfButtonEval;
use tone_keypad::power::POWER_UNIT;
use tone_keypad::remote::RemoteButtonEval;
use tone_keypad::spectrum::{max_pwr_in_range, FrequencyBand, SpectrumPoint};

fn pt(hz: u64, power: u64) -> SpectrumPoint {
    SpectrumPoint { frequency_millihz: hz * 1000, power }
}

#[test]
fn band_max_takes_largest_inside() {
    let s = vec![pt(600, 90), pt(690, 5), pt(700, 12), pt(730, 8), pt(800, 70)];
    let band = FrequencyBand { min_millihz: 657_000, max_millihz: 737_000 };
    assert_eq!(max_pwr_in_range(&s, band), 12);
}

#[test]
fn band_edges_are_included() {
    let s = vec![pt(657, 50), pt(737, 60), pt(700, 3)];
    let band = FrequencyBand { min_millihz: 657_000, max_millihz: 737_000 };
    assert_eq!(max_pwr_in_range(&s, band), 60);
    let s = vec![pt(656, 50), pt(738, 60), pt(700, 3)];
    assert_eq!(max_pwr_in_range(&s, band), 3);
    let s = vec![pt(657, 50), pt(700, 3)];
    assert_eq!(max_pwr_in_range(&s, band), 50);
}

#[test]
fn key_one_triggered_by_bins_on_band_edges() {
    // 657 Hz is the lower edge of the 697 Hz row band
    let s = vec![pt(657, 5 * POWER_UNIT), pt(1209, 5 * POWER_UNIT)];
    let one = DtmfButtonEval::from_spectrum(DtmfSignals::signal(DtmfKey::K1), &s);
    assert!(one.triggered());
}

#[test]
fn remote_triggered_by_bin_on_band_edge() {
    // 500 Hz below the Volume carrier
    let s = vec![pt(37_380, 5 * POWER_UNIT)];
    let vol = RemoteButtonEval::from_spectrum(RemoteSignals::signal(RemoteKey::Volume), &s);
    assert!(vol.triggered());
    let s = vec![pt(38_380, 5 * POWER_UNIT)];
    assert_eq!(RemoteSignals::signal(RemoteKey::Volume).pwr_in_spectrum(&s), 5 * POWER_UNIT);
}

#[test]
fn empty_band_gives_zero() {
    let band = FrequencyBand { min_millihz: 657_000, max_millihz: 737_000 };
    assert_eq!(max_pwr_in_range(&[], band), 0);
    let s = vec![pt(100, 50), pt(2000, 60)];
    assert_eq!(max_pwr_in_range(&s, band), 0);
}

#[test]
fn band_below_zero_includes_dc() {
    let s = vec![pt(0, 9)];
    let band = FrequencyBand { min_millihz: -5, max_millihz: 1000 };
    assert_eq!(max_pwr_in_range(&s, band), 9);
    let band = FrequencyBand { min_millihz: 1, max_millihz: 1000 };
    assert_eq!(max_pwr_in_range(&s, band), 0);
    let band = FrequencyBand { min_millihz: -1000, max_millihz: -1 };
    assert_eq!(max_pwr_in_range(&s, band), 0);
}

#[test]
fn button_band_is_frequency_plus_minus_bandwidth() {
    let b = DtmfSignals::signal(DtmfKey::K1).row_freq.band();
    assert_eq!(b, FrequencyBand { min_millihz: 657_000, max_millihz: 737_000 });
    let b = RemoteSignals::signal(RemoteKey::Volume).freq.band();
    assert_eq!(b, FrequencyBand { min_millihz: 37_380_000, max_millihz: 38_380_000 });
}

#[test]
fn dtmf_from_spectrum_reads_both_bands() {
    let s = vec![pt(690, 3 * POWER_UNIT), pt(1200, 2 * POWER_UNIT), pt(1336, 9 * POWER_UNIT)];
    let one = DtmfButtonEval::from_spectrum(DtmfSignals::signal(DtmfKey::K1), &s);
    assert_eq!(one.power_row, 3 * POWER_UNIT);
    assert_eq!(one.power_col, 2 * POWER_UNIT);
    assert!(one.triggered());
    let nine = DtmfButtonEval::from_spectrum(DtmfSignals::signal(DtmfKey::K9), &s);
    assert_eq!(nine.power_row, 0);
    assert_eq!(nine.power_col, 0);
    assert!(!nine.either_triggered());
    let (row, col) = DtmfSignals::signal(DtmfKey::K2).pwr_in_spectrum(&s);
    assert_eq!((row, col), (3 * POWER_UNIT, 9 * POWER_UNIT));
}

#[test]
fn remote_from_spectrum_reads_carrier_band() {
    let s = vec![pt(37_500, 4 * POWER_UNIT), pt(38_000, POWER_UNIT), pt(38_400, 8 * POWER_UNIT)];
    let vol = RemoteButtonEval::from_spectrum(RemoteSignals::signal(RemoteKey::Volume), &s);
    assert_eq!(vol.power, 4 * POWER_UNIT);
    assert!(vol.triggered());
    let up = RemoteButtonEval::from_spectrum(RemoteSignals::signal(RemoteKey::ChannelUp), &s);
    assert_eq!(up.power, 0);
    assert_eq!(RemoteSignals::signal(RemoteKey::OffOn).pwr_in_spectrum(&s), 8 * POWER_UNIT);
}
