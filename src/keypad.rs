//! The detection output of one analysis cycle: the 4x4 DTMF grid and the
//! four remote-control buttons, each evaluated against a power table.

use vstd::prelude::*;
use crate::catalog::{is_dtmf_signal, is_remote_signal, DtmfKey, DtmfSignals, RemoteKey, RemoteSignals};
use crate::dtmf::DtmfButtonEval;
use crate::power::{lemma_power_at_tone, PowerTable};
use crate::remote::RemoteButtonEval;
use crate::tones::Tone;

verus! {

/// Number of rows, and of columns, of the DTMF grid.
pub const GRID_SIZE: usize = 4;

/// Number of remote-control buttons.
pub const REMOTE_BUTTONS: usize = 4;

/// The key at `row`, `col` of the grid. Row 0 holds `* 0 # D` (941 Hz),
/// row 1 `7 8 9 C` (852 Hz), row 2 `4 5 6 B` (770 Hz) and row 3 `1 2 3 A`
/// (697 Hz); the columns are at 1209, 1336, 1477 and 1633 Hz.
pub open spec fn keypad_key(row: int, col: int) -> DtmfKey {
    if row == 0 {
        if col == 0 { DtmfKey::Star } else if col == 1 { DtmfKey::K0 } else if col == 2 { DtmfKey::Pound } else { DtmfKey::D }
    } else if row == 1 {
        if col == 0 { DtmfKey::K7 } else if col == 1 { DtmfKey::K8 } else if col == 2 { DtmfKey::K9 } else { DtmfKey::C }
    } else if row == 2 {
        if col == 0 { DtmfKey::K4 } else if col == 1 { DtmfKey::K5 } else if col == 2 { DtmfKey::K6 } else { DtmfKey::B }
    } else {
        if col == 0 { DtmfKey::K1 } else if col == 1 { DtmfKey::K2 } else if col == 2 { DtmfKey::K3 } else { DtmfKey::A }
    }
}

/// The row tone shared by the keys of grid row `row`.
pub open spec fn keypad_row_tone(row: int) -> Tone {
    if row == 0 { Tone::RowD } else if row == 1 { Tone::RowC } else if row == 2 { Tone::RowB } else { Tone::RowA }
}

/// The column tone shared by the keys of grid column `col`.
pub open spec fn keypad_col_tone(col: int) -> Tone {
    if col == 0 { Tone::Col1 } else if col == 1 { Tone::Col2 } else if col == 2 { Tone::Col3 } else { Tone::ColA }
}

/// The remote button at position `i`: Channel-, Volume, Off/On, Channel+.
pub open spec fn remote_key(i: int) -> RemoteKey {
    if i == 0 { RemoteKey::ChannelDn } else if i == 1 { RemoteKey::Volume } else if i == 2 { RemoteKey::OffOn } else { RemoteKey::ChannelUp }
}

/// Each key of the grid lies on the row tone of its row and on the column
/// tone of its column.
pub proof fn lemma_keypad_layout(row: int, col: int)
    requires
        0 <= row < GRID_SIZE,
        0 <= col < GRID_SIZE,
    ensures
        keypad_key(row, col).row_tone() == keypad_row_tone(row),
        keypad_key(row, col).col_tone() == keypad_col_tone(col),
{
}

/// Whether `e` evaluates the DTMF key `key` against the powers of its row and
/// column tones in `powers`.
pub open spec fn is_dtmf_cell(e: DtmfButtonEval, key: DtmfKey, powers: Seq<u64>) -> bool {
    &&& is_dtmf_signal(e.button, key)
    &&& e.power_row == powers[key.row_tone().spec_index()]
    &&& e.power_col == powers[key.col_tone().spec_index()]
}

/// Whether `e` evaluates the remote button `key` against the power of its
/// carrier in `powers`.
pub open spec fn is_remote_cell(e: RemoteButtonEval, key: RemoteKey, powers: Seq<u64>) -> bool {
    &&& is_remote_signal(e.remote_button, key)
    &&& e.power == powers[key.tone().spec_index()]
}

fn dtmf_cell(table: &PowerTable, key: DtmfKey) -> (r: DtmfButtonEval)
    ensures
        is_dtmf_cell(r, key, table@),
{
    let button = DtmfSignals::signal(key);
    proof {
        lemma_power_at_tone(table@, key.row_tone());
        lemma_power_at_tone(table@, key.col_tone());
    }
    let power_row = table.get(button.row_freq.frequency);
    let power_col = table.get(button.col_freq.frequency);
    DtmfButtonEval::new(button, power_row, power_col)
}

fn remote_cell(table: &PowerTable, key: RemoteKey) -> (r: RemoteButtonEval)
    ensures
        is_remote_cell(r, key, table@),
{
    let button = RemoteSignals::signal(key);
    proof {
        lemma_power_at_tone(table@, key.tone());
    }
    let power = table.get(button.freq.frequency);
    RemoteButtonEval::new(button, power)
}

/// The evaluated state of every button for one analysis cycle.
#[derive(Clone, Copy, Debug)]
pub struct KeypadSnapshot {
    /// The DTMF grid, indexed by row and then by column.
    pub keypad: [[DtmfButtonEval; GRID_SIZE]; GRID_SIZE],
    /// The remote buttons in the order Channel-, Volume, Off/On, Channel+.
    pub remote: [RemoteButtonEval; REMOTE_BUTTONS],
}

impl KeypadSnapshot {
    /// Whether the snapshot evaluates every button against `powers`.
    pub open spec fn evaluates(&self, powers: Seq<u64>) -> bool {
        &&& forall|row: int, col: int|
            0 <= row < GRID_SIZE && 0 <= col < GRID_SIZE ==> is_dtmf_cell(
                #[trigger] self.keypad[row][col],
                keypad_key(row, col),
                powers,
            )
        &&& forall|i: int| 0 <= i < REMOTE_BUTTONS ==> is_remote_cell(#[trigger] self.remote[i], remote_key(i), powers)
    }

    /// Whether every cell of the grid reads the power of its row's tone and
    /// of its column's tone in `powers`.
    pub open spec fn pairs_rows_and_columns(&self, powers: Seq<u64>) -> bool {
        forall|row: int, col: int|
            0 <= row < GRID_SIZE && 0 <= col < GRID_SIZE ==> {
                &&& (#[trigger] self.keypad[row][col]).power_row == powers[keypad_row_tone(row).spec_index()]
                &&& self.keypad[row][col].power_col == powers[keypad_col_tone(col).spec_index()]
            }
    }

    /// Evaluates every DTMF key and every remote button against the table.
    pub fn from_powers(table: &PowerTable) -> (r: KeypadSnapshot)
        ensures
            r.evaluates(table@),
            r.pairs_rows_and_columns(table@),
    {
        let keypad = [
            [
                dtmf_cell(table, DtmfKey::Star),
                dtmf_cell(table, DtmfKey::K0),
                dtmf_cell(table, DtmfKey::Pound),
                dtmf_cell(table, DtmfKey::D),
            ],
            [
                dtmf_cell(table, DtmfKey::K7),
                dtmf_cell(table, DtmfKey::K8),
                dtmf_cell(table, DtmfKey::K9),
                dtmf_cell(table, DtmfKey::C),
            ],
            [
                dtmf_cell(table, DtmfKey::K4),
                dtmf_cell(table, DtmfKey::K5),
                dtmf_cell(table, DtmfKey::K6),
                dtmf_cell(table, DtmfKey::B),
            ],
            [
                dtmf_cell(table, DtmfKey::K1),
                dtmf_cell(table, DtmfKey::K2),
                dtmf_cell(table, DtmfKey::K3),
                dtmf_cell(table, DtmfKey::A),
            ],
        ];
        let remote = [
            remote_cell(table, RemoteKey::ChannelDn),
            remote_cell(table, RemoteKey::Volume),
            remote_cell(table, RemoteKey::OffOn),
            remote_cell(table, RemoteKey::ChannelUp),
        ];
        let r = KeypadSnapshot { keypad, remote };
        assert forall|row: int, col: int| 0 <= row < GRID_SIZE && 0 <= col < GRID_SIZE implies {
            &&& (#[trigger] r.keypad[row][col]).power_row == table@[keypad_row_tone(row).spec_index()]
            &&& r.keypad[row][col].power_col == table@[keypad_col_tone(col).spec_index()]
        } by {
            lemma_keypad_layout(row, col);
        }
        r
    }
}

} // verus!
