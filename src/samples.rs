//! Conversion of raw converter codes to centred samples, and the volume bar
//! drawn from the spread of one sample batch.

use vstd::prelude::*;

verus! {

/// Midpoint of the 8-bit converter's range, subtracted from every raw code.
pub const ADC_MIDPOINT: i16 = 128;

/// Height of a full volume bar.
pub const VOLUME_LEVELS: u64 = 3;

/// Spread of a batch at which the volume bar is full.
pub const VOLUME_SCALE: u64 = 255;

/// The raw code centred around zero.
pub fn center_sample(raw: u8) -> (r: i16)
    ensures
        r == raw - ADC_MIDPOINT,
{
    raw as i16 - ADC_MIDPOINT
}

/// The largest sample of `s`, or 0 for an empty batch.
pub open spec fn seq_max(s: Seq<i16>) -> int
    decreases s.len(),
{
    if s.len() == 0 {
        0
    } else if s.len() == 1 {
        s[0] as int
    } else {
        let m = seq_max(s.drop_last());
        if s.last() > m { s.last() as int } else { m }
    }
}

/// The smallest sample of `s`, or 0 for an empty batch.
pub open spec fn seq_min(s: Seq<i16>) -> int
    decreases s.len(),
{
    if s.len() == 0 {
        0
    } else if s.len() == 1 {
        s[0] as int
    } else {
        let m = seq_min(s.drop_last());
        if s.last() < m { s.last() as int } else { m }
    }
}

/// Whether volume level `k` lies under the curve at spread `t`: `k` is 0, or
/// `k - 0.002 <= 3 * sqrt(1 - (t / 255 - 1)^2)`, written over integers.
pub open spec fn volume_fits(k: int, t: int) -> bool {
    let d = VOLUME_SCALE as int;
    let c = VOLUME_LEVELS as int;
    k == 0 || (500 * k - 1) * (500 * k - 1) * d * d <= 250_000 * c * c * t * (2 * d - t)
}

/// The greatest level in `[0, k]` that lies under the curve at spread `t`.
pub open spec fn highest_volume(k: int, t: int) -> int
    decreases k,
{
    if k <= 0 {
        0
    } else if volume_fits(k, t) {
        k
    } else {
        highest_volume(k - 1, t)
    }
}

/// Volume bar height for a spread of samples: `3 * sqrt(1 - (t / 255 - 1)^2)
/// + 0.002` rounded down, the spread `t` clamped to `[0, 255]` first.
pub open spec fn spec_volume(spread: int) -> int {
    let t = if spread < 0 { 0 } else if spread > VOLUME_SCALE { VOLUME_SCALE as int } else { spread };
    highest_volume(VOLUME_LEVELS as int, t)
}

proof fn lemma_highest_volume_bound(k: int, t: int)
    requires
        k >= 0,
    ensures
        0 <= highest_volume(k, t) <= k,
    decreases k,
{
    if k > 0 {
        lemma_highest_volume_bound(k - 1, t);
    }
}

proof fn lemma_max_ge_min(s: Seq<i16>)
    ensures
        seq_min(s) <= seq_max(s),
    decreases s.len(),
{
    if s.len() > 1 {
        lemma_max_ge_min(s.drop_last());
    }
}

fn volume_level_fits(k: u64, t: u64) -> (r: bool)
    requires
        k <= VOLUME_LEVELS,
        t <= VOLUME_SCALE,
    ensures
        r == volume_fits(k as int, t as int),
{
    if k == 0 {
        return true;
    }
    assert((500 * k - 1) * (500 * k - 1) * 255 * 255 <= 1499 * 1499 * 255 * 255) by (nonlinear_arith)
        requires
            1 <= k <= 3,
    ;
    assert(t * (2 * 255 - t) <= 255 * 510) by (nonlinear_arith)
        requires
            t <= 255,
    ;
    let area: u64 = t * (2 * VOLUME_SCALE - t);
    assert(250_000 * VOLUME_LEVELS * VOLUME_LEVELS * area <= 2_250_000 * 130_050) by (nonlinear_arith)
        requires
            area <= 130_050,
            VOLUME_LEVELS == 3,
    ;
    assert(250_000 * 3 * 3 * t * (2 * 255 - t) == 250_000 * 3 * 3 * area) by (nonlinear_arith)
        requires
            area == t * (2 * 255 - t),
    ;
    (500 * k - 1) * (500 * k - 1) * VOLUME_SCALE * VOLUME_SCALE
        <= 250_000 * VOLUME_LEVELS * VOLUME_LEVELS * area
}

/// Height of the volume bar for a batch of centred samples, from the spread
/// between its largest and its smallest sample.
pub fn volume_level(pcm: &[i16]) -> (r: u8)
    ensures
        r == spec_volume(seq_max(pcm@) - seq_min(pcm@)),
        r <= VOLUME_LEVELS,
{
    let mut max: i16 = 0;
    let mut min: i16 = 0;
    if pcm.len() > 0 {
        max = pcm[0];
        min = pcm[0];
    }
    let mut i: usize = if pcm.len() > 0 { 1 } else { 0 };
    while i < pcm.len()
        invariant
            i <= pcm@.len(),
            pcm@.len() > 0 ==> i >= 1,
            max == seq_max(pcm@.subrange(0, i as int)),
            min == seq_min(pcm@.subrange(0, i as int)),
        decreases pcm@.len() - i,
    {
        proof {
            let next = pcm@.subrange(0, i + 1);
            assert(next.drop_last() =~= pcm@.subrange(0, i as int));
        }
        if pcm[i] > max {
            max = pcm[i];
        }
        if pcm[i] < min {
            min = pcm[i];
        }
        i = i + 1;
    }
    proof {
        assert(pcm@.subrange(0, pcm@.len() as int) =~= pcm@);
        lemma_max_ge_min(pcm@);
    }
    let spread: i32 = max as i32 - min as i32;
    let t: u64 = if spread > VOLUME_SCALE as i32 { VOLUME_SCALE } else { spread as u64 };
    let mut k: u64 = VOLUME_LEVELS;
    while k > 0 && !volume_level_fits(k, t)
        invariant
            k <= VOLUME_LEVELS,
            t <= VOLUME_SCALE,
            highest_volume(k as int, t as int) == highest_volume(VOLUME_LEVELS as int, t as int),
        decreases k,
    {
        k = k - 1;
    }
    proof {
        lemma_highest_volume_bound(VOLUME_LEVELS as int, t as int);
    }
    k as u8
}

} // verus!
