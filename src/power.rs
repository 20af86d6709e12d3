//! Fixed-point power readings and the per-tone table that one analysis cycle
//! produces.

use vstd::prelude::*;
use crate::tones::{Tone, TONE_COUNT};

verus! {

/// Counts of a power reading per unit of signal power: a reading of
/// `POWER_UNIT` stands for a power of 1.0.
pub const POWER_UNIT: u64 = 1_000_000;

/// Power of the tone with frequency `hz` in a table, or 0 where no tone of the
/// table has that frequency.
pub open spec fn power_at_hz(powers: Seq<u64>, hz: u32) -> u64 {
    if exists|i: int| 0 <= i < TONE_COUNT && Tone::spec_at(i).spec_hz() == hz {
        powers[choose|i: int| 0 <= i < TONE_COUNT && Tone::spec_at(i).spec_hz() == hz]
    } else {
        0
    }
}

/// Looking a tone up by its frequency finds the entry at the tone's index.
pub proof fn lemma_power_at_tone(powers: Seq<u64>, tone: Tone)
    ensures
        power_at_hz(powers, tone.spec_hz()) == powers[tone.spec_index()],
{
    Tone::lemma_hz_injective();
    assert(Tone::spec_at(tone.spec_index()).spec_hz() == tone.spec_hz());
}

/// Power at each of the [`TONE_COUNT`] tones for one sample batch, the entry
/// of a tone standing at its index.
pub struct PowerTable {
    pub powers: [u64; TONE_COUNT],
}

impl View for PowerTable {
    type V = Seq<u64>;

    open spec fn view(&self) -> Seq<u64> {
        self.powers@
    }
}

impl PowerTable {
    /// A table in which every tone has zero power.
    pub fn new() -> (r: PowerTable)
        ensures
            r@ == Seq::new(TONE_COUNT as nat, |i: int| 0u64),
    {
        let r = PowerTable { powers: [0u64; TONE_COUNT] };
        assert(r@ =~= Seq::new(TONE_COUNT as nat, |i: int| 0u64));
        r
    }

    /// Records the power measured at `tone`.
    pub fn set(&mut self, tone: Tone, power: u64)
        ensures
            final(self)@ == old(self)@.update(tone.spec_index(), power),
    {
        let i = tone.index();
        self.powers[i] = power;
    }

    /// The power measured at `tone`.
    pub fn power(&self, tone: Tone) -> (r: u64)
        ensures
            r == self@[tone.spec_index()],
    {
        self.powers[tone.index()]
    }

    /// The power measured at the tone of frequency `hz`; 0 where no tone has
    /// that frequency.
    pub fn get(&self, hz: u32) -> (r: u64)
        ensures
            r == power_at_hz(self@, hz),
    {
        match Tone::from_hz(hz) {
            Some(t) => {
                proof {
                    Tone::lemma_hz_injective();
                    assert(Tone::spec_at(t.spec_index()) == t);
                }
                self.powers[t.index()]
            },
            None => 0,
        }
    }
}

} // verus!
