//! Trigger decisions for one DTMF key.

use vstd::prelude::*;
use crate::catalog::DtmfButtonSignal;
use crate::spectrum::{band_max, SpectrumPoint};

verus! {

/// A DTMF key together with the power read at its row tone and at its column
/// tone in one analysis cycle.
#[derive(Clone, Copy, Debug)]
pub struct DtmfButtonEval {
    pub button: DtmfButtonSignal<'static>,
    /// Power read at the row tone.
    pub power_row: u64,
    /// Power read at the column tone.
    pub power_col: u64,
}

impl DtmfButtonEval {
    /// Whether the row power exceeds the row threshold.
    pub open spec fn row_on(&self) -> bool {
        self.power_row > self.button.row_freq.power_threshold
    }

    /// Whether the column power exceeds the column threshold.
    pub open spec fn col_on(&self) -> bool {
        self.power_col > self.button.col_freq.power_threshold
    }

    /// Whether both tones exceed their thresholds.
    pub open spec fn is_triggered(&self) -> bool {
        self.row_on() && self.col_on()
    }

    /// Whether at least one tone exceeds its threshold.
    pub open spec fn is_either_triggered(&self) -> bool {
        self.row_on() || self.col_on()
    }

    /// Evaluates the key against the largest power inside each of its two
    /// detection bands of a spectrum.
    pub fn from_spectrum(button: DtmfButtonSignal<'static>, spectrum: &[SpectrumPoint]) -> (r: DtmfButtonEval)
        ensures
            r.button == button,
            r.power_row == band_max(spectrum@, button.row_freq.spec_band()),
            r.power_col == band_max(spectrum@, button.col_freq.spec_band()),
    {
        let (power_row, power_col) = button.pwr_in_spectrum(spectrum);
        DtmfButtonEval { button, power_row, power_col }
    }

    /// Evaluates the key against the given row and column powers.
    pub fn new(button: DtmfButtonSignal<'static>, power_row: u64, power_col: u64) -> (r: DtmfButtonEval)
        ensures
            r.button == button,
            r.power_row == power_row,
            r.power_col == power_col,
    {
        DtmfButtonEval { button, power_row, power_col }
    }

    /// Whether at least one of the two tones exceeds its threshold.
    pub fn either_triggered(&self) -> (r: bool)
        ensures
            r == self.is_either_triggered(),
    {
        self.power_row > self.button.row_freq.power_threshold
            || self.power_col > self.button.col_freq.power_threshold
    }

    /// Whether both tones exceed their thresholds.
    pub fn triggered(&self) -> (r: bool)
        ensures
            r == self.is_triggered(),
    {
        self.power_row > self.button.row_freq.power_threshold
            && self.power_col > self.button.col_freq.power_threshold
    }
}

/// A key that is triggered is also partly triggered, whatever the powers and
/// thresholds.
pub proof fn lemma_triggered_implies_either(e: DtmfButtonEval)
    ensures
        e.is_triggered() ==> e.is_either_triggered(),
{
}

} // verus!
