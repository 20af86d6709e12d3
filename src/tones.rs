//! The twelve target tones: eight DTMF row and column frequencies and four
//! remote-control carriers.

use vstd::prelude::*;

verus! {

/// DTMF row and column frequencies in hertz.
pub struct DtmfFreqs;

impl DtmfFreqs {
    // rows are named after the last button in the row
    pub const ROW_A: u32 = 697;
    pub const ROW_B: u32 = 770;
    pub const ROW_C: u32 = 852;
    pub const ROW_D: u32 = 941;
    // columns are named after the first button in the column
    pub const COL_1: u32 = 1209;
    pub const COL_2: u32 = 1336;
    pub const COL_3: u32 = 1477;
    pub const COL_A: u32 = 1633;
}

/// Remote-control carrier frequencies in hertz.
pub struct RemFreqs;

impl RemFreqs {
    pub const CHANNEL_DN: u32 = 40_380;
    pub const VOLUME: u32 = 37_880;
    pub const OFF_ON: u32 = 38_880;
    pub const CHANNEL_UP: u32 = 41_380;
}

/// Number of distinct tones the detector listens for.
pub const TONE_COUNT: usize = 12;

/// One of the tones the detector listens for.
#[derive(Clone, Copy, Debug, PartialEq, Eq, Structural)]
pub enum Tone {
    RowA,
    RowB,
    RowC,
    RowD,
    Col1,
    Col2,
    Col3,
    ColA,
    ChannelDn,
    Volume,
    OffOn,
    ChannelUp,
}

impl Tone {
    /// Frequency of the tone in hertz.
    pub open spec fn spec_hz(self) -> u32 {
        match self {
            Tone::RowA => DtmfFreqs::ROW_A,
            Tone::RowB => DtmfFreqs::ROW_B,
            Tone::RowC => DtmfFreqs::ROW_C,
            Tone::RowD => DtmfFreqs::ROW_D,
            Tone::Col1 => DtmfFreqs::COL_1,
            Tone::Col2 => DtmfFreqs::COL_2,
            Tone::Col3 => DtmfFreqs::COL_3,
            Tone::ColA => DtmfFreqs::COL_A,
            Tone::ChannelDn => RemFreqs::CHANNEL_DN,
            Tone::Volume => RemFreqs::VOLUME,
            Tone::OffOn => RemFreqs::OFF_ON,
            Tone::ChannelUp => RemFreqs::CHANNEL_UP,
        }
    }

    /// Position of the tone in a table of [`TONE_COUNT`] entries.
    pub open spec fn spec_index(self) -> int {
        match self {
            Tone::RowA => 0,
            Tone::RowB => 1,
            Tone::RowC => 2,
            Tone::RowD => 3,
            Tone::Col1 => 4,
            Tone::Col2 => 5,
            Tone::Col3 => 6,
            Tone::ColA => 7,
            Tone::ChannelDn => 8,
            Tone::Volume => 9,
            Tone::OffOn => 10,
            Tone::ChannelUp => 11,
        }
    }

    /// The tone at position `i` of a table.
    pub open spec fn spec_at(i: int) -> Tone
        recommends
            0 <= i < TONE_COUNT,
    {
        if i == 0 {
            Tone::RowA
        } else if i == 1 {
            Tone::RowB
        } else if i == 2 {
            Tone::RowC
        } else if i == 3 {
            Tone::RowD
        } else if i == 4 {
            Tone::Col1
        } else if i == 5 {
            Tone::Col2
        } else if i == 6 {
            Tone::Col3
        } else if i == 7 {
            Tone::ColA
        } else if i == 8 {
            Tone::ChannelDn
        } else if i == 9 {
            Tone::Volume
        } else if i == 10 {
            Tone::OffOn
        } else {
            Tone::ChannelUp
        }
    }

    #[verifier::when_used_as_spec(spec_hz)]
    pub fn hz(self) -> (r: u32)
        ensures
            r == self.spec_hz(),
    {
        match self {
            Tone::RowA => DtmfFreqs::ROW_A,
            Tone::RowB => DtmfFreqs::ROW_B,
            Tone::RowC => DtmfFreqs::ROW_C,
            Tone::RowD => DtmfFreqs::ROW_D,
            Tone::Col1 => DtmfFreqs::COL_1,
            Tone::Col2 => DtmfFreqs::COL_2,
            Tone::Col3 => DtmfFreqs::COL_3,
            Tone::ColA => DtmfFreqs::COL_A,
            Tone::ChannelDn => RemFreqs::CHANNEL_DN,
            Tone::Volume => RemFreqs::VOLUME,
            Tone::OffOn => RemFreqs::OFF_ON,
            Tone::ChannelUp => RemFreqs::CHANNEL_UP,
        }
    }

    /// Position of the tone in a table of [`TONE_COUNT`] entries.
    pub fn index(self) -> (r: usize)
        ensures
            r == self.spec_index(),
            r < TONE_COUNT,
    {
        match self {
            Tone::RowA => 0,
            Tone::RowB => 1,
            Tone::RowC => 2,
            Tone::RowD => 3,
            Tone::Col1 => 4,
            Tone::Col2 => 5,
            Tone::Col3 => 6,
            Tone::ColA => 7,
            Tone::ChannelDn => 8,
            Tone::Volume => 9,
            Tone::OffOn => 10,
            Tone::ChannelUp => 11,
        }
    }

    /// The tone whose frequency is `hz`, if there is one.
    pub fn from_hz(hz: u32) -> (r: Option<Tone>)
        ensures
            r matches Some(t) ==> t.spec_hz() == hz,
            r is None <==> forall|i: int| 0 <= i < TONE_COUNT ==> Tone::spec_at(i).spec_hz() != hz,
    {
        let mut i: usize = 0;
        while i < TONE_COUNT
            invariant
                i <= TONE_COUNT,
                forall|j: int| 0 <= j < i ==> Tone::spec_at(j).spec_hz() != hz,
            decreases TONE_COUNT - i,
        {
            let t = Tone::at(i);
            if t.hz() == hz {
                return Some(t);
            }
            i = i + 1;
        }
        None
    }

    /// The tone at position `i` of a table.
    pub fn at(i: usize) -> (r: Tone)
        requires
            i < TONE_COUNT,
        ensures
            r == Tone::spec_at(i as int),
            r.spec_index() == i,
    {
        if i == 0 {
            Tone::RowA
        } else if i == 1 {
            Tone::RowB
        } else if i == 2 {
            Tone::RowC
        } else if i == 3 {
            Tone::RowD
        } else if i == 4 {
            Tone::Col1
        } else if i == 5 {
            Tone::Col2
        } else if i == 6 {
            Tone::Col3
        } else if i == 7 {
            Tone::ColA
        } else if i == 8 {
            Tone::ChannelDn
        } else if i == 9 {
            Tone::Volume
        } else if i == 10 {
            Tone::OffOn
        } else {
            Tone::ChannelUp
        }
    }

    /// Every tone sits at its own index, and no two tones share a frequency.
    pub proof fn lemma_hz_injective()
        ensures
            forall|t: Tone| #[trigger] Tone::spec_at(t.spec_index()) == t,
            forall|t: Tone| 0 <= #[trigger] t.spec_index() < TONE_COUNT,
            forall|i: int, j: int|
                0 <= i < TONE_COUNT && 0 <= j < TONE_COUNT
                    && #[trigger] Tone::spec_at(i).spec_hz() == #[trigger] Tone::spec_at(j).spec_hz()
                    ==> i == j,
    {
    }
}
} // verus!
