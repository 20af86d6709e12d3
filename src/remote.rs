//! Trigger decision and bar-graph height for one remote-control button.

use vstd::prelude::*;
use crate::catalog::RemoteButtonSignal;
use crate::power::POWER_UNIT;
use crate::spectrum::{band_max, SpectrumPoint};

verus! {

/// Height of a full bar of the display.
pub const DISPLAY_MAX: u64 = 7;

/// Power at which the display curve reaches a full bar: a power of 10.0.
pub const EASE_DURATION: u64 = 10 * POWER_UNIT;

/// Whether level `j` lies under the bound: `j * j * d * d <= s`.
pub open spec fn level_fits(j: int, s: int, d: int) -> bool {
    j * j * d * d <= s
}

/// The greatest `j` in `[0, k]` with `j = 0` or `level_fits(j, s, d)`.
pub open spec fn highest_level(k: int, s: int, d: int) -> int
    decreases k,
{
    if k <= 0 {
        0
    } else if level_fits(k, s, d) {
        k
    } else {
        highest_level(k - 1, s, d)
    }
}

/// The quarter-circle ease-out curve `c * sqrt(1 - (t / d - 1)^2)` for
/// `0 <= t <= d`, rounded down: the greatest integer `k <= c` with
/// `k * k * d * d <= c * c * t * (2 * d - t)`.
pub open spec fn ease_out_floor(t: int, c: int, d: int) -> int {
    highest_level(c, c * c * t * (2 * d - t), d)
}

/// Bar height for a power reading: the ease-out curve from 0 to
/// [`DISPLAY_MAX`] over powers `0..=EASE_DURATION`, the power clamped to
/// that range first.
pub open spec fn spec_display_range(power: int) -> int {
    let t = if power < EASE_DURATION { power } else { EASE_DURATION as int };
    ease_out_floor(t, DISPLAY_MAX as int, EASE_DURATION as int)
}

/// `highest_level(k, s, d)` is the greatest level up to `k` that meets the
/// bound: it meets it, and every level above it up to `k` does not.
pub proof fn lemma_highest_level(k: int, s: int, d: int)
    requires
        k >= 0,
    ensures
        0 <= highest_level(k, s, d) <= k,
        highest_level(k, s, d) == 0 || level_fits(highest_level(k, s, d), s, d),
        forall|j: int| highest_level(k, s, d) < j <= k ==> !#[trigger] level_fits(j, s, d),
    decreases k,
{
    if k > 0 {
        lemma_highest_level(k - 1, s, d);
    }
}

/// `highest_level` does not decrease as the bound grows.
pub proof fn lemma_highest_level_monotone(k: int, s1: int, s2: int, d: int)
    requires
        s1 <= s2,
    ensures
        highest_level(k, s1, d) <= highest_level(k, s2, d),
    decreases k,
{
    if k > 0 {
        lemma_highest_level_monotone(k - 1, s1, s2, d);
        if k * k * d * d > s2 {
        } else if k * k * d * d > s1 {
            lemma_highest_level(k - 1, s1, d);
        }
    }
}

/// The bar height never decreases as the power grows, and always lies in
/// `[0, DISPLAY_MAX]`.
pub proof fn lemma_display_range_monotone(p1: int, p2: int)
    requires
        0 <= p1 <= p2,
    ensures
        spec_display_range(p1) <= spec_display_range(p2),
        0 <= spec_display_range(p1) <= DISPLAY_MAX,
{
    let d = EASE_DURATION as int;
    let c = DISPLAY_MAX as int;
    let t1 = if p1 < d { p1 } else { d };
    let t2 = if p2 < d { p2 } else { d };
    assert(c * c * t1 * (2 * d - t1) <= c * c * t2 * (2 * d - t2)) by (nonlinear_arith)
        requires
            0 <= t1 <= t2 <= d,
            c >= 0,
    ;
    lemma_highest_level_monotone(c, c * c * t1 * (2 * d - t1), c * c * t2 * (2 * d - t2), d);
    lemma_highest_level(c, c * c * t1 * (2 * d - t1), d);
}

/// Whether bar height `k` lies under the bound `s` of the display curve.
fn bar_fits(k: u64, s: u64) -> (r: bool)
    requires
        k <= DISPLAY_MAX,
    ensures
        r == level_fits(k as int, s as int, EASE_DURATION as int),
{
    assert(k * k * EASE_DURATION * EASE_DURATION <= 49 * 10_000_000 * 10_000_000) by (nonlinear_arith)
        requires
            k <= 7,
            EASE_DURATION == 10_000_000,
    ;
    k * k * EASE_DURATION * EASE_DURATION <= s
}

/// A remote-control button together with the power read at its carrier in
/// one analysis cycle.
#[derive(Clone, Copy, Debug)]
pub struct RemoteButtonEval {
    pub remote_button: RemoteButtonSignal<'static>,
    /// Power read at the carrier tone.
    pub power: u64,
}

impl RemoteButtonEval {
    /// Whether the power exceeds the button's threshold.
    pub open spec fn is_triggered(&self) -> bool {
        self.power > self.remote_button.freq.power_threshold
    }

    /// Evaluates the button against the largest power inside its detection
    /// band of a spectrum.
    pub fn from_spectrum(remote_button: RemoteButtonSignal<'static>, spectrum: &[SpectrumPoint]) -> (r: RemoteButtonEval)
        ensures
            r.remote_button == remote_button,
            r.power == band_max(spectrum@, remote_button.freq.spec_band()),
    {
        let power = remote_button.pwr_in_spectrum(spectrum);
        RemoteButtonEval { remote_button, power }
    }

    /// Evaluates the button against the given power.
    pub fn new(remote_button: RemoteButtonSignal<'static>, power: u64) -> (r: RemoteButtonEval)
        ensures
            r.remote_button == remote_button,
            r.power == power,
    {
        RemoteButtonEval { remote_button, power }
    }

    /// Bar height for the button's power, in `[0, DISPLAY_MAX]`.
    pub fn display_range(&self) -> (r: u8)
        ensures
            r == spec_display_range(self.power as int),
            r <= DISPLAY_MAX,
    {
        let t: u64 = if self.power < EASE_DURATION { self.power } else { EASE_DURATION };
        assert(DISPLAY_MAX * DISPLAY_MAX * t * (2 * EASE_DURATION - t) <= 49 * 10_000_000 * 20_000_000)
            by (nonlinear_arith)
            requires
                t <= EASE_DURATION,
                EASE_DURATION == 10_000_000,
                DISPLAY_MAX == 7,
        ;
        let s: u64 = DISPLAY_MAX * DISPLAY_MAX * t * (2 * EASE_DURATION - t);
        let mut k: u64 = DISPLAY_MAX;
        while k > 0 && !bar_fits(k, s)
            invariant
                k <= DISPLAY_MAX,
                highest_level(k as int, s as int, EASE_DURATION as int)
                    == highest_level(DISPLAY_MAX as int, s as int, EASE_DURATION as int),
            decreases k,
        {
            k = k - 1;
        }
        proof {
            lemma_highest_level(DISPLAY_MAX as int, s as int, EASE_DURATION as int);
        }
        k as u8
    }

    /// Whether the power exceeds the button's threshold.
    pub fn triggered(&self) -> (r: bool)
        ensures
            r == self.is_triggered(),
    {
        self.power > self.remote_button.freq.power_threshold
    }
}

} // verus!
