//! What the state machine reads (key presses) and what it asks its driver to do.

use vstd::prelude::*;
use crate::enums::{CellType, SelectedTopTab};

verus! {

/// A key of the keyboard, as far as the client tells keys apart.
#[derive(Clone, Copy, Debug, PartialEq, Eq, Structural)]
pub enum Key {
    Esc,
    Tab,
    Enter,
    Backspace,
    Delete,
    Left,
    Right,
    Up,
    Down,
    Char(char),
    F(u8),
    Other,
}

/// A keyboard event: the key, whether Shift was held, and whether it is a press
/// (releases and repeats are ignored).
#[derive(Clone, Copy, Debug, PartialEq, Eq, Structural)]
pub struct KeyPress {
    pub code: Key,
    pub shift: bool,
    pub pressed: bool,
}

/// An operation on the cell table of one of the four top tabs.
#[derive(Clone, Copy, Debug, PartialEq, Eq, Structural)]
pub enum TableOp {
    PageUp,
    MoveUp,
    PageDown,
    MoveDown,
    MoveLeft,
    MoveRight,
    /// Moves the cursor to the cell of the address (0-based).
    GoToCell(u16),
    /// Queues a new content for the cell under the cursor.
    QueueCurrentCell(CellType),
    RevertCurrentCell,
    ToggleCurrentCoil,
}

/// A message shown to the user in the error popup.
#[derive(Clone, Copy, Debug, PartialEq, Eq, Structural)]
pub enum Notice {
    /// A table action needs a live link.
    ConnectFirst,
    /// Saving the queue needs a live link.
    ConnectFirstToSave,
    /// Macro files only describe TCP links.
    MacroNeedsTcp,
    /// There is nothing in the queue to save.
    QueueEmpty,
}

impl Notice {
    pub fn message(self) -> (s: &'static str)
        ensures
            s@ == (match self {
                Notice::ConnectFirst => "Connect to a server first."@,
                Notice::ConnectFirstToSave => "Connect to a server first"@,
                Notice::MacroNeedsTcp => "Save macro is only available for TCP connections"@,
                Notice::QueueEmpty => "Queue some commands first"@,
            }),
    {
        match self {
            Notice::ConnectFirst => "Connect to a server first.",
            Notice::ConnectFirstToSave => "Connect to a server first",
            Notice::MacroNeedsTcp => "Save macro is only available for TCP connections",
            Notice::QueueEmpty => "Queue some commands first",
        }
    }
}

/// Something the driver must do after a key: ring the bell, talk to the
/// Modbus link, act on a table, or write a file.
pub enum Effect {
    Beep,
    /// Show the message in the error popup.
    Report(Notice),
    /// Read the page of the current table that the cursor is on.
    ReadCurrentPage,
    /// Write every queued cell to the device.
    ApplyQueued,
    /// Close the Modbus link.
    Disconnect,
    /// Read `address:port` (see `socket_address_text`) as a socket address,
    /// hand the outcome to `finish_tcp_connect`, and connect on success.
    ConnectTcp { address: Vec<char>, port: Vec<char> },
    /// Open the serial port with these settings.
    ConnectRtu { port: Vec<char>, baud_rate: u32, slave_id: u8 },
    /// Act on the table of a top tab (and then refresh the queue).
    Table { table: SelectedTopTab, op: TableOp },
    /// Revert the queued cell at the address of the table (and then refresh the queue).
    RevertQueueItem { table_index: usize, address: u16 },
    /// Save the queue as a macro file of that name (and then call `finish_macro_save`).
    SaveMacro { file_name: Vec<char>, overwrite: bool },
}

/// The mathematical value of an [`Effect`].
pub enum EffectView {
    Beep,
    Report(Notice),
    ReadCurrentPage,
    ApplyQueued,
    Disconnect,
    ConnectTcp { address: Seq<char>, port: Seq<char> },
    ConnectRtu { port: Seq<char>, baud_rate: u32, slave_id: u8 },
    Table { table: SelectedTopTab, op: TableOp },
    RevertQueueItem { table_index: usize, address: u16 },
    SaveMacro { file_name: Seq<char>, overwrite: bool },
}

impl View for Effect {
    type V = EffectView;

    open spec fn view(&self) -> EffectView {
        match self {
            Effect::Beep => EffectView::Beep,
            Effect::Report(n) => EffectView::Report(*n),
            Effect::ReadCurrentPage => EffectView::ReadCurrentPage,
            Effect::ApplyQueued => EffectView::ApplyQueued,
            Effect::Disconnect => EffectView::Disconnect,
            Effect::ConnectTcp { address, port } => EffectView::ConnectTcp {
                address: address@,
                port: port@,
            },
            Effect::ConnectRtu { port, baud_rate, slave_id } => EffectView::ConnectRtu {
                port: port@,
                baud_rate: *baud_rate,
                slave_id: *slave_id,
            },
            Effect::Table { table, op } => EffectView::Table { table: *table, op: *op },
            Effect::RevertQueueItem { table_index, address } => EffectView::RevertQueueItem {
                table_index: *table_index,
                address: *address,
            },
            Effect::SaveMacro { file_name, overwrite } => EffectView::SaveMacro {
                file_name: file_name@,
                overwrite: *overwrite,
            },
        }
    }
}

/// The value of an optional effect.
pub open spec fn effect_view(e: Option<Effect>) -> Option<EffectView> {
    match e {
        Some(x) => Some(x@),
        None => None,
    }
}

/// How writing a macro file ended.
#[derive(Clone, Copy, Debug, PartialEq, Eq, Structural)]
pub enum MacroSaveOutcome {
    Saved,
    /// The file exists and was not to be overwritten.
    AlreadyExists,
    /// Any other input/output error.
    Failed,
}

} // verus!
