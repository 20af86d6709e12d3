//! The static catalog of buttons: sixteen DTMF keys, each a pair of a row
//! and a column tone, and four remote-control buttons, each one carrier tone.

use vstd::prelude::*;
use crate::power::POWER_UNIT;
use crate::tones::Tone;

verus! {

/// Power above which a tone counts as present: a power of 1.0.
pub const STD_THRESHOLD: u64 = POWER_UNIT;

/// Half width, in hertz, of the detection band of a DTMF tone.
pub const HALF_BANDWIDTH: u32 = 40;

/// Half width, in hertz, of the detection band of a remote carrier.
pub const HALF_KHZ: u32 = 500;

/// A target tone of a button: its frequency, the power above which it counts
/// as present, and the detection band `[frequency - lower_bandwidth,
/// frequency + upper_bandwidth]` in hertz.
#[derive(Clone, Copy, Debug, PartialEq, Eq, Structural)]
pub struct ButtonFrequency {
    pub frequency: u32,
    pub power_threshold: u64,
    pub upper_bandwidth: u32,
    pub lower_bandwidth: u32,
}

/// The standard descriptor of a tone: threshold 1.0 and a symmetric band of
/// `half_band` hertz on each side.
pub open spec fn std_frequency(tone: Tone, half_band: u32) -> ButtonFrequency {
    ButtonFrequency {
        frequency: tone.spec_hz(),
        power_threshold: STD_THRESHOLD,
        upper_bandwidth: half_band,
        lower_bandwidth: half_band,
    }
}

fn make_frequency(tone: Tone, half_band: u32) -> (r: ButtonFrequency)
    ensures
        r == std_frequency(tone, half_band),
{
    ButtonFrequency {
        frequency: tone.hz(),
        power_threshold: STD_THRESHOLD,
        upper_bandwidth: half_band,
        lower_bandwidth: half_band,
    }
}

/// A DTMF key: its name, its label on the keypad, and its row and column
/// tones.
#[derive(Clone, Copy, Debug)]
pub struct DtmfButtonSignal<'a> {
    pub name: &'a str,
    pub short_name: &'a str,
    pub row_freq: ButtonFrequency,
    pub col_freq: ButtonFrequency,
}

/// A remote-control button: its name, its short label, and its carrier tone.
#[derive(Clone, Copy, Debug)]
pub struct RemoteButtonSignal<'a> {
    pub name: &'a str,
    pub short_name: &'a str,
    pub freq: ButtonFrequency,
}

/// The sixteen keys of the DTMF keypad.
#[derive(Clone, Copy, Debug, PartialEq, Eq, Structural)]
pub enum DtmfKey {
    K1,
    K2,
    K3,
    A,
    K4,
    K5,
    K6,
    B,
    K7,
    K8,
    K9,
    C,
    Star,
    K0,
    Pound,
    D,
}

impl DtmfKey {
    /// The row tone of the key.
    pub open spec fn spec_row_tone(self) -> Tone {
        match self {
            DtmfKey::K1 => Tone::RowA,
            DtmfKey::K2 => Tone::RowA,
            DtmfKey::K3 => Tone::RowA,
            DtmfKey::A => Tone::RowA,
            DtmfKey::K4 => Tone::RowB,
            DtmfKey::K5 => Tone::RowB,
            DtmfKey::K6 => Tone::RowB,
            DtmfKey::B => Tone::RowB,
            DtmfKey::K7 => Tone::RowC,
            DtmfKey::K8 => Tone::RowC,
            DtmfKey::K9 => Tone::RowC,
            DtmfKey::C => Tone::RowC,
            DtmfKey::Star => Tone::RowD,
            DtmfKey::K0 => Tone::RowD,
            DtmfKey::Pound => Tone::RowD,
            DtmfKey::D => Tone::RowD,
        }
    }

    /// The column tone of the key.
    pub open spec fn spec_col_tone(self) -> Tone {
        match self {
            DtmfKey::K1 => Tone::Col1,
            DtmfKey::K2 => Tone::Col2,
            DtmfKey::K3 => Tone::Col3,
            DtmfKey::A => Tone::ColA,
            DtmfKey::K4 => Tone::Col1,
            DtmfKey::K5 => Tone::Col2,
            DtmfKey::K6 => Tone::Col3,
            DtmfKey::B => Tone::ColA,
            DtmfKey::K7 => Tone::Col1,
            DtmfKey::K8 => Tone::Col2,
            DtmfKey::K9 => Tone::Col3,
            DtmfKey::C => Tone::ColA,
            DtmfKey::Star => Tone::Col1,
            DtmfKey::K0 => Tone::Col2,
            DtmfKey::Pound => Tone::Col3,
            DtmfKey::D => Tone::ColA,
        }
    }

    /// The name of the key.
    pub open spec fn spec_name(self) -> Seq<char> {
        match self {
            DtmfKey::K1 => "1"@,
            DtmfKey::K2 => "2"@,
            DtmfKey::K3 => "3"@,
            DtmfKey::A => "A"@,
            DtmfKey::K4 => "4"@,
            DtmfKey::K5 => "5"@,
            DtmfKey::K6 => "6"@,
            DtmfKey::B => "B"@,
            DtmfKey::K7 => "7"@,
            DtmfKey::K8 => "8"@,
            DtmfKey::K9 => "9"@,
            DtmfKey::C => "C"@,
            DtmfKey::Star => "STAR"@,
            DtmfKey::K0 => "0"@,
            DtmfKey::Pound => "POUND"@,
            DtmfKey::D => "D"@,
        }
    }

    /// The label of the key on the keypad.
    pub open spec fn spec_label(self) -> Seq<char> {
        match self {
            DtmfKey::K1 => "1"@,
            DtmfKey::K2 => "2"@,
            DtmfKey::K3 => "3"@,
            DtmfKey::A => "A"@,
            DtmfKey::K4 => "4"@,
            DtmfKey::K5 => "5"@,
            DtmfKey::K6 => "6"@,
            DtmfKey::B => "B"@,
            DtmfKey::K7 => "7"@,
            DtmfKey::K8 => "8"@,
            DtmfKey::K9 => "9"@,
            DtmfKey::C => "C"@,
            DtmfKey::Star => "*"@,
            DtmfKey::K0 => "0"@,
            DtmfKey::Pound => "#"@,
            DtmfKey::D => "D"@,
        }
    }

    /// The row tone of the key.
    #[verifier::when_used_as_spec(spec_row_tone)]
    pub fn row_tone(self) -> (r: Tone)
        ensures
            r == self.spec_row_tone(),
    {
        match self {
            DtmfKey::K1 => Tone::RowA,
            DtmfKey::K2 => Tone::RowA,
            DtmfKey::K3 => Tone::RowA,
            DtmfKey::A => Tone::RowA,
            DtmfKey::K4 => Tone::RowB,
            DtmfKey::K5 => Tone::RowB,
            DtmfKey::K6 => Tone::RowB,
            DtmfKey::B => Tone::RowB,
            DtmfKey::K7 => Tone::RowC,
            DtmfKey::K8 => Tone::RowC,
            DtmfKey::K9 => Tone::RowC,
            DtmfKey::C => Tone::RowC,
            DtmfKey::Star => Tone::RowD,
            DtmfKey::K0 => Tone::RowD,
            DtmfKey::Pound => Tone::RowD,
            DtmfKey::D => Tone::RowD,
        }
    }

    /// The column tone of the key.
    #[verifier::when_used_as_spec(spec_col_tone)]
    pub fn col_tone(self) -> (r: Tone)
        ensures
            r == self.spec_col_tone(),
    {
        match self {
            DtmfKey::K1 => Tone::Col1,
            DtmfKey::K2 => Tone::Col2,
            DtmfKey::K3 => Tone::Col3,
            DtmfKey::A => Tone::ColA,
            DtmfKey::K4 => Tone::Col1,
            DtmfKey::K5 => Tone::Col2,
            DtmfKey::K6 => Tone::Col3,
            DtmfKey::B => Tone::ColA,
            DtmfKey::K7 => Tone::Col1,
            DtmfKey::K8 => Tone::Col2,
            DtmfKey::K9 => Tone::Col3,
            DtmfKey::C => Tone::ColA,
            DtmfKey::Star => Tone::Col1,
            DtmfKey::K0 => Tone::Col2,
            DtmfKey::Pound => Tone::Col3,
            DtmfKey::D => Tone::ColA,
        }
    }

    fn names(self) -> (r: (&'static str, &'static str))
        ensures
            r.0@ == self.spec_name(),
            r.1@ == self.spec_label(),
    {
        match self {
            DtmfKey::K1 => ("1", "1"),
            DtmfKey::K2 => ("2", "2"),
            DtmfKey::K3 => ("3", "3"),
            DtmfKey::A => ("A", "A"),
            DtmfKey::K4 => ("4", "4"),
            DtmfKey::K5 => ("5", "5"),
            DtmfKey::K6 => ("6", "6"),
            DtmfKey::B => ("B", "B"),
            DtmfKey::K7 => ("7", "7"),
            DtmfKey::K8 => ("8", "8"),
            DtmfKey::K9 => ("9", "9"),
            DtmfKey::C => ("C", "C"),
            DtmfKey::Star => ("STAR", "*"),
            DtmfKey::K0 => ("0", "0"),
            DtmfKey::Pound => ("POUND", "#"),
            DtmfKey::D => ("D", "D"),
        }
    }
}

/// The four buttons of the remote control.
#[derive(Clone, Copy, Debug, PartialEq, Eq, Structural)]
pub enum RemoteKey {
    ChannelDn,
    Volume,
    OffOn,
    ChannelUp,
}

impl RemoteKey {
    /// The carrier tone of the button.
    pub open spec fn spec_tone(self) -> Tone {
        match self {
            RemoteKey::ChannelDn => Tone::ChannelDn,
            RemoteKey::Volume => Tone::Volume,
            RemoteKey::OffOn => Tone::OffOn,
            RemoteKey::ChannelUp => Tone::ChannelUp,
        }
    }

    /// The name of the button.
    pub open spec fn spec_name(self) -> Seq<char> {
        match self {
            RemoteKey::ChannelDn => "Channel-"@,
            RemoteKey::Volume => "Volume"@,
            RemoteKey::OffOn => "Off/On"@,
            RemoteKey::ChannelUp => "Channel+"@,
        }
    }

    /// The short label of the button.
    pub open spec fn spec_label(self) -> Seq<char> {
        match self {
            RemoteKey::ChannelDn => "Ch-"@,
            RemoteKey::Volume => "VOL"@,
            RemoteKey::OffOn => "Pwr"@,
            RemoteKey::ChannelUp => "Ch+"@,
        }
    }

    /// The carrier tone of the button.
    #[verifier::when_used_as_spec(spec_tone)]
    pub fn tone(self) -> (r: Tone)
        ensures
            r == self.spec_tone(),
    {
        match self {
            RemoteKey::ChannelDn => Tone::ChannelDn,
            RemoteKey::Volume => Tone::Volume,
            RemoteKey::OffOn => Tone::OffOn,
            RemoteKey::ChannelUp => Tone::ChannelUp,
        }
    }

    fn names(self) -> (r: (&'static str, &'static str))
        ensures
            r.0@ == self.spec_name(),
            r.1@ == self.spec_label(),
    {
        match self {
            RemoteKey::ChannelDn => ("Channel-", "Ch-"),
            RemoteKey::Volume => ("Volume", "VOL"),
            RemoteKey::OffOn => ("Off/On", "Pwr"),
            RemoteKey::ChannelUp => ("Channel+", "Ch+"),
        }
    }
}

/// Whether `s` is the catalog entry of the DTMF key `key`: its names, and
/// its row and column tones with threshold 1.0 and a band of
/// [`HALF_BANDWIDTH`] hertz on each side.
pub open spec fn is_dtmf_signal(s: DtmfButtonSignal, key: DtmfKey) -> bool {
    &&& s.name@ == key.spec_name()
    &&& s.short_name@ == key.spec_label()
    &&& s.row_freq == std_frequency(key.row_tone(), HALF_BANDWIDTH)
    &&& s.col_freq == std_frequency(key.col_tone(), HALF_BANDWIDTH)
}

/// Whether `s` is the catalog entry of the remote button `key`: its names,
/// and its carrier tone with threshold 1.0 and a band of [`HALF_KHZ`] hertz on
/// each side.
pub open spec fn is_remote_signal(s: RemoteButtonSignal, key: RemoteKey) -> bool {
    &&& s.name@ == key.spec_name()
    &&& s.short_name@ == key.spec_label()
    &&& s.freq == std_frequency(key.tone(), HALF_KHZ)
}

/// The catalog of DTMF keys.
#[non_exhaustive]
pub struct DtmfSignals;

impl DtmfSignals {
    /// The catalog entry of a key.
    pub fn signal(key: DtmfKey) -> (r: DtmfButtonSignal<'static>)
        ensures
            is_dtmf_signal(r, key),
    {
        let (name, short_name) = key.names();
        DtmfButtonSignal {
            name,
            short_name,
            row_freq: make_frequency(key.row_tone(), HALF_BANDWIDTH),
            col_freq: make_frequency(key.col_tone(), HALF_BANDWIDTH),
        }
    }
}

/// The catalog of remote-control buttons.
#[non_exhaustive]
pub struct RemoteSignals;

impl RemoteSignals {
    /// The catalog entry of a button.
    pub fn signal(key: RemoteKey) -> (r: RemoteButtonSignal<'static>)
        ensures
            is_remote_signal(r, key),
    {
        let (name, short_name) = key.names();
        RemoteButtonSignal { name, short_name, freq: make_frequency(key.tone(), HALF_KHZ) }
    }
}

} // verus!
