use tone_keypad::catalog::{
    DtmfKey, DtmfSignals, RemoteKey, RemoteSignals, HALF_BANDWIDTH, HALF_KHZ, STD_THRESHOLD,
};
use tone_keypad::power::{PowerTable, POWER_UNIT};
use tone_keypad::tones::{DtmfFreqs, RemFreqs, Tone, TONE_COUNT};

#[test]
fn dtmf_entries_pair_row_and_column() {
    let one = DtmfSignals::signal(DtmfKey::K1);
    assert_eq!(one.name, "1");
    assert_eq!(one.short_name, "1");
    assert_eq!(one.row_freq.frequency, 697);
    assert_eq!(one.col_freq.frequency, 1209);
    let star = DtmfSignals::signal(DtmfKey::Star);
    assert_eq!(star.name, "STAR");
    assert_eq!(star.short_name, "*");
    assert_eq!(star.row_freq.frequency, DtmfFreqs::ROW_D);
    assert_eq!(star.col_freq.frequency, DtmfFreqs::COL_1);
    let pound = DtmfSignals::signal(DtmfKey::Pound);
    assert_eq!(pound.short_name, "#");
    assert_eq!(pound.row_freq.frequency, 941);
    assert_eq!(pound.col_freq.frequency, 1477);
    let c = DtmfSignals::signal(DtmfKey::C);
    assert_eq!(c.row_freq.frequency, 852);
    assert_eq!(c.col_freq.frequency, 1633);
    let six = DtmfSignals::signal(DtmfKey::K6);
    assert_eq!(six.row_freq.frequency, 770);
    assert_eq!(six.col_freq.frequency, 1477);
}

#[test]
fn dtmf_entries_have_standard_threshold_and_band() {
    let f = DtmfSignals::signal(DtmfKey::K8).row_freq;
    assert_eq!(f.power_threshold, POWER_UNIT);
    assert_eq!(f.power_threshold, STD_THRESHOLD);
    assert_eq!(f.lower_bandwidth, 40);
    assert_eq!(f.upper_bandwidth, HALF_BANDWIDTH);
}

#[test]
fn remote_entries() {
    let dn = RemoteSignals::signal(RemoteKey::ChannelDn);
    assert_eq!(dn.name, "Channel-");
    assert_eq!(dn.short_name, "Ch-");
    assert_eq!(dn.freq.frequency, 40_380);
    assert_eq!(dn.freq.lower_bandwidth, 500);
    assert_eq!(dn.freq.upper_bandwidth, HALF_KHZ);
    assert_eq!(dn.freq.power_threshold, POWER_UNIT);
    let vol = RemoteSignals::signal(RemoteKey::Volume);
    assert_eq!(vol.name, "Volume");
    assert_eq!(vol.short_name, "VOL");
    assert_eq!(vol.freq.frequency, RemFreqs::VOLUME);
    let pwr = RemoteSignals::signal(RemoteKey::OffOn);
    assert_eq!(pwr.name, "Off/On");
    assert_eq!(pwr.short_name, "Pwr");
    assert_eq!(pwr.freq.frequency, 38_880);
    let up = RemoteSignals::signal(RemoteKey::ChannelUp);
    assert_eq!(up.name, "Channel+");
    assert_eq!(up.short_name, "Ch+");
    assert_eq!(up.freq.frequency, 41_380);
}

#[test]
fn tones_round_trip_through_index_and_frequency() {
    for i in 0..TONE_COUNT {
        let t = Tone::at(i);
        assert_eq!(t.index(), i);
        assert_eq!(Tone::from_hz(t.hz()), Some(t));
    }
    assert_eq!(Tone::from_hz(1000), None);
    assert_eq!(Tone::from_hz(0), None);
    assert_eq!(Tone::RowA.hz(), 697);
    assert_eq!(Tone::ChannelUp.hz(), 41_380);
}

#[test]
fn power_table_lookup_falls_back_to_zero() {
    let mut table = PowerTable::new();
    assert_eq!(table.get(697), 0);
    table.set(Tone::RowA, 42);
    table.set(Tone::Volume, 7);
    assert_eq!(table.get(697), 42);
    assert_eq!(table.power(Tone::RowA), 42);
    assert_eq!(table.get(37_880), 7);
    assert_eq!(table.get(770), 0);
    assert_eq!(table.get(12_345), 0);
    table.set(Tone::RowA, 3);
    assert_eq!(table.get(697), 3);
}

#[test]
fn keys_name_their_tones() {
    assert_eq!(DtmfKey::K9.row_tone(), Tone::RowC);
    assert_eq!(DtmfKey::K9.col_tone(), Tone::Col3);
    assert_eq!(DtmfKey::Star.row_tone(), Tone::RowD);
    assert_eq!(DtmfKey::A.col_tone(), Tone::ColA);
    assert_eq!(RemoteKey::OffOn.tone(), Tone::OffOn);
    assert_eq!(RemoteKey::ChannelDn.tone().hz(), 40_380);
}
