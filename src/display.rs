//! Rendering of a snapshot and a volume level onto an 8x8 bicolor LED matrix.
//!
//! Layout, with (0, 0) at the bottom-left corner: the DTMF grid fills columns
//! 0 to 3 of rows 4 to 7 (grid row `r` on matrix row `r + 4`), the volume bar
//! rises in column 0 from row 0, and the four remote buttons have one bar
//! each in columns 4 to 7.

use vstd::prelude::*;
use crate::dtmf::DtmfButtonEval;
use crate::keypad::{KeypadSnapshot, GRID_SIZE};
use crate::remote::{spec_display_range, RemoteButtonEval};
use crate::samples::VOLUME_LEVELS;

verus! {

/// Width and height of the LED matrix.
pub const MATRIX_SIZE: usize = 8;

/// Colour of one bicolor LED.
#[derive(Clone, Copy, Debug, PartialEq, Eq, Structural)]
pub enum LedColor {
    Off,
    Green,
    Red,
    Yellow,
}

/// Colour of a DTMF key: red when triggered, green when only one of its tones
/// is present, off otherwise.
pub open spec fn key_color(e: DtmfButtonEval) -> LedColor {
    if e.is_triggered() {
        LedColor::Red
    } else if e.is_either_triggered() {
        LedColor::Green
    } else {
        LedColor::Off
    }
}

/// Colour of row `y` of a remote button's bar of height `h`: green below the
/// top, and above height 3 a yellow top with a red cap on it; row 7 is red
/// while the button is triggered.
pub open spec fn bar_color(h: int, triggered: bool, y: int) -> LedColor {
    if triggered && y == MATRIX_SIZE - 1 {
        LedColor::Red
    } else if h > 3 && y == h {
        LedColor::Red
    } else if h > 3 && y == h - 1 {
        LedColor::Yellow
    } else if y < h {
        LedColor::Green
    } else {
        LedColor::Off
    }
}

/// Colour of row `y` of the volume bar at level `v`: green below the top,
/// and at level 3 a yellow top with a red cap on it.
pub open spec fn volume_color(v: int, y: int) -> LedColor {
    if v > 2 && y == v {
        LedColor::Red
    } else if v > 2 && y == v - 1 {
        LedColor::Yellow
    } else if y < v {
        LedColor::Green
    } else {
        LedColor::Off
    }
}

/// Colour of the LED at column `x`, row `y`.
pub open spec fn spec_pixel(s: KeypadSnapshot, volume: int, x: int, y: int) -> LedColor {
    if x >= GRID_SIZE {
        let e = s.remote[x - GRID_SIZE];
        bar_color(spec_display_range(e.power as int), e.is_triggered(), y)
    } else if y >= GRID_SIZE {
        key_color(s.keypad[y - GRID_SIZE][x])
    } else if x == 0 {
        volume_color(volume, y)
    } else {
        LedColor::Off
    }
}

/// The colours of the matrix, indexed by column and then by row.
pub struct LedFrame {
    pub pixels: [[LedColor; MATRIX_SIZE]; MATRIX_SIZE],
}

fn key_pixel(e: &DtmfButtonEval) -> (r: LedColor)
    ensures
        r == key_color(*e),
{
    if e.triggered() {
        LedColor::Red
    } else if e.either_triggered() {
        LedColor::Green
    } else {
        LedColor::Off
    }
}

fn bar_pixel(e: &RemoteButtonEval, y: usize) -> (r: LedColor)
    requires
        y < MATRIX_SIZE,
    ensures
        r == bar_color(spec_display_range(e.power as int), e.is_triggered(), y as int),
{
    let h = e.display_range() as usize;
    if e.triggered() && y == MATRIX_SIZE - 1 {
        LedColor::Red
    } else if h > 3 && y == h {
        LedColor::Red
    } else if h > 3 && y == h - 1 {
        LedColor::Yellow
    } else if y < h {
        LedColor::Green
    } else {
        LedColor::Off
    }
}

fn volume_pixel(v: u8, y: usize) -> (r: LedColor)
    ensures
        r == volume_color(v as int, y as int),
{
    let v = v as usize;
    if v > 2 && y == v {
        LedColor::Red
    } else if v > 2 && y == v - 1 {
        LedColor::Yellow
    } else if y < v {
        LedColor::Green
    } else {
        LedColor::Off
    }
}

fn pixel(s: &KeypadSnapshot, volume: u8, x: usize, y: usize) -> (r: LedColor)
    requires
        x < MATRIX_SIZE,
        y < MATRIX_SIZE,
    ensures
        r == spec_pixel(*s, volume as int, x as int, y as int),
{
    if x >= GRID_SIZE {
        bar_pixel(&s.remote[x - GRID_SIZE], y)
    } else if y >= GRID_SIZE {
        key_pixel(&s.keypad[y - GRID_SIZE][x])
    } else if x == 0 {
        volume_pixel(volume, y)
    } else {
        LedColor::Off
    }
}

/// Draws the snapshot and the volume bar.
pub fn render(snapshot: &KeypadSnapshot, volume: u8) -> (r: LedFrame)
    requires
        volume <= VOLUME_LEVELS,
    ensures
        forall|x: int, y: int|
            0 <= x < MATRIX_SIZE && 0 <= y < MATRIX_SIZE ==> #[trigger] r.pixels[x][y] == spec_pixel(
                *snapshot,
                volume as int,
                x,
                y,
            ),
{
    let mut pixels = [[LedColor::Off; MATRIX_SIZE]; MATRIX_SIZE];
    let mut x: usize = 0;
    while x < MATRIX_SIZE
        invariant
            x <= MATRIX_SIZE,
            forall|i: int, j: int|
                0 <= i < x && 0 <= j < MATRIX_SIZE ==> #[trigger] pixels[i][j] == spec_pixel(
                    *snapshot,
                    volume as int,
                    i,
                    j,
                ),
        decreases MATRIX_SIZE - x,
    {
        let mut column = [LedColor::Off; MATRIX_SIZE];
        let mut y: usize = 0;
        while y < MATRIX_SIZE
            invariant
                x < MATRIX_SIZE,
                y <= MATRIX_SIZE,
                forall|j: int| 0 <= j < y ==> #[trigger] column[j] == spec_pixel(*snapshot, volume as int, x as int, j),
            decreases MATRIX_SIZE - y,
        {
            column[y] = pixel(snapshot, volume, x, y);
            y = y + 1;
        }
        pixels[x] = column;
        x = x + 1;
    }
    LedFrame { pixels }
}

} // verus!
