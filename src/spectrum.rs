//! Power-in-band queries over a frequency spectrum, for readings that come
//! from a Fourier transform rather than from the tone filters.

use vstd::prelude::*;
use crate::catalog::{ButtonFrequency, DtmfButtonSignal, RemoteButtonSignal};

verus! {

/// Millihertz per hertz.
pub const MILLIHZ_PER_HZ: i64 = 1000;

/// One bin of a spectrum: its frequency in millihertz and its power.
#[derive(Clone, Copy, Debug, PartialEq, Eq, Structural)]
pub struct SpectrumPoint {
    pub frequency_millihz: u64,
    pub power: u64,
}

/// The closed frequency interval `[min_millihz, max_millihz]`.
#[derive(Clone, Copy, Debug, PartialEq, Eq, Structural)]
pub struct FrequencyBand {
    pub min_millihz: i64,
    pub max_millihz: i64,
}

/// Whether the bin lies inside the band, edges included.
pub open spec fn in_band(p: SpectrumPoint, band: FrequencyBand) -> bool {
    band.min_millihz <= p.frequency_millihz && p.frequency_millihz <= band.max_millihz
}

/// The largest power among the bins of `s` that lie inside the band, or 0
/// where none does.
pub open spec fn band_max(s: Seq<SpectrumPoint>, band: FrequencyBand) -> u64
    decreases s.len(),
{
    if s.len() == 0 {
        0
    } else {
        let m = band_max(s.drop_last(), band);
        if in_band(s.last(), band) && s.last().power > m {
            s.last().power
        } else {
            m
        }
    }
}

/// `band_max` bounds the power of every bin inside the band, and is 0 or the
/// power of one of them.
pub proof fn lemma_band_max_is_max(s: Seq<SpectrumPoint>, band: FrequencyBand)
    ensures
        forall|i: int| 0 <= i < s.len() && in_band(#[trigger] s[i], band) ==> s[i].power <= band_max(s, band),
        band_max(s, band) == 0 || exists|i: int|
            0 <= i < s.len() && in_band(#[trigger] s[i], band) && s[i].power == band_max(s, band),
    decreases s.len(),
{
    if s.len() > 0 {
        let t = s.drop_last();
        lemma_band_max_is_max(t, band);
        assert forall|i: int| 0 <= i < s.len() && in_band(#[trigger] s[i], band) implies s[i].power <= band_max(s, band) by {
            if i < s.len() - 1 {
                assert(s[i] == t[i]);
            }
        }
        if band_max(s, band) != 0 {
            if band_max(s, band) == band_max(t, band) {
                let i = choose|i: int| 0 <= i < t.len() && in_band(#[trigger] t[i], band) && t[i].power == band_max(t, band);
                assert(s[i] == t[i]);
            } else {
                assert(s[s.len() - 1] == s.last());
            }
        }
    }
}

/// The largest power among the bins of the spectrum that lie inside the
/// band, edges included; 0 where none does.
pub fn max_pwr_in_range(spectrum: &[SpectrumPoint], btn_freq: FrequencyBand) -> (r: u64)
    ensures
        r == band_max(spectrum@, btn_freq),
        forall|i: int| 0 <= i < spectrum@.len() && in_band(#[trigger] spectrum@[i], btn_freq) ==> spectrum@[i].power <= r,
        r == 0 || exists|i: int|
            0 <= i < spectrum@.len() && in_band(#[trigger] spectrum@[i], btn_freq) && spectrum@[i].power == r,
{
    let mut max: u64 = 0;
    let mut i: usize = 0;
    while i < spectrum.len()
        invariant
            i <= spectrum@.len(),
            max == band_max(spectrum@.subrange(0, i as int), btn_freq),
        decreases spectrum@.len() - i,
    {
        let p = spectrum[i];
        proof {
            let next = spectrum@.subrange(0, i + 1);
            assert(next.drop_last() =~= spectrum@.subrange(0, i as int));
            assert(next.last() == p);
        }
        let inside = btn_freq.min_millihz < 0 || (btn_freq.min_millihz as u64) <= p.frequency_millihz;
        let inside = inside && btn_freq.max_millihz >= 0 && p.frequency_millihz <= (btn_freq.max_millihz as u64);
        if inside && p.power > max {
            max = p.power;
        }
        i = i + 1;
    }
    assert(spectrum@.subrange(0, spectrum@.len() as int) =~= spectrum@);
    proof {
        lemma_band_max_is_max(spectrum@, btn_freq);
    }
    max
}

impl ButtonFrequency {
    /// The detection band of the tone, in millihertz.
    pub open spec fn spec_band(&self) -> FrequencyBand {
        FrequencyBand {
            min_millihz: ((self.frequency - self.lower_bandwidth) * MILLIHZ_PER_HZ) as i64,
            max_millihz: ((self.frequency + self.upper_bandwidth) * MILLIHZ_PER_HZ) as i64,
        }
    }

    /// The detection band of the tone, in millihertz.
    pub fn band(&self) -> (r: FrequencyBand)
        ensures
            r == self.spec_band(),
    {
        let lo = self.frequency as i64 - self.lower_bandwidth as i64;
        let hi = self.frequency as i64 + self.upper_bandwidth as i64;
        FrequencyBand { min_millihz: lo * MILLIHZ_PER_HZ, max_millihz: hi * MILLIHZ_PER_HZ }
    }
}

impl<'a> DtmfButtonSignal<'a> {
    /// The largest power inside the row band and inside the column band.
    pub fn pwr_in_spectrum(&self, spectrum: &[SpectrumPoint]) -> (r: (u64, u64))
        ensures
            r.0 == band_max(spectrum@, self.row_freq.spec_band()),
            r.1 == band_max(spectrum@, self.col_freq.spec_band()),
    {
        let limit_a = self.row_freq.band();
        let limit_b = self.col_freq.band();
        (max_pwr_in_range(spectrum, limit_a), max_pwr_in_range(spectrum, limit_b))
    }
}

impl<'a> RemoteButtonSignal<'a> {
    /// The largest power inside the carrier's band.
    pub fn pwr_in_spectrum(&self, spectrum: &[SpectrumPoint]) -> (r: u64)
        ensures
            r == band_max(spectrum@, self.freq.spec_band()),
    {
        let limit = self.freq.band();
        max_pwr_in_range(spectrum, limit)
    }
}

} // verus!
