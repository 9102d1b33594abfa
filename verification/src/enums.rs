//! The small value types that the client's state is made of.

use vstd::prelude::*;

verus! {

/// Which way a logged Modbus frame travelled.
#[derive(Clone, Copy, Debug, PartialEq, Eq, Structural)]
pub enum LogDirection {
    Tx,
    Rx,
}

impl LogDirection {
    /// The two-letter label shown in front of a log line.
    pub fn label(&self) -> (s: &'static str)
        ensures
            s@ == (match *self {
                LogDirection::Tx => "TX"@,
                LogDirection::Rx => "RX"@,
            }),
    {
        match self {
            LogDirection::Tx => "TX",
            LogDirection::Rx => "RX",
        }
    }
}

/// One line of the request log.
pub struct LogEntry {
    pub timestamp: String,
    pub direction: LogDirection,
    pub message: String,
}

/// A read request: the table, the first address and the number of cells.
pub type ModbusReadCommand = (SelectedTopTab, u16, u16);

/// A cell update: the table, the address and the new content.
pub type ModbusWriteCommand = (SelectedTopTab, u16, CellType);

/// A batch of requests travelling between the interface and the Modbus link.
pub enum ModbusCommandQueue {
    Read(Vec<ModbusReadCommand>),
    Write(Vec<ModbusWriteCommand>),
}

/// The content of one cell: a coil (or discrete input) bit, or a register word.
#[derive(Clone, Copy, Debug, PartialEq, Eq, Structural)]
pub enum CellType {
    Coil(bool),
    Word(u16),
}

impl CellType {
    /// The numeric value of a cell: a coil is 0 or 1, a word is itself.
    pub open spec fn value(self) -> u16 {
        match self {
            CellType::Coil(b) => if b {
                1u16
            } else {
                0u16
            },
            CellType::Word(w) => w,
        }
    }

    pub fn to_u16(self) -> (r: u16)
        ensures
            r == self.value(),
    {
        match self {
            CellType::Coil(content) => {
                if content {
                    1
                } else {
                    0
                }
            },
            CellType::Word(content) => content,
        }
    }
}

/// Whether a Modbus link is up.
#[derive(Clone, Copy, Debug, PartialEq, Eq, Structural)]
pub enum ConnectionStatus {
    Connected,
    NotConnected,
}

impl Default for ConnectionStatus {
    fn default() -> (r: Self)
        ensures
            r == ConnectionStatus::NotConnected,
    {
        ConnectionStatus::NotConnected
    }
}

impl ConnectionStatus {
    /// The status as the connection tab shows it.
    pub fn name(&self) -> (s: &'static str)
        ensures
            s@ == (match *self {
                ConnectionStatus::Connected => "Connected"@,
                ConnectionStatus::NotConnected => "NotConnected"@,
            }),
    {
        match self {
            ConnectionStatus::Connected => "Connected",
            ConnectionStatus::NotConnected => "NotConnected",
        }
    }
}

/// What the screen shows: the main view, the help pages or a popup over the main view.
#[derive(Clone, Debug)]
pub enum AppMode {
    Main,
    Help,
    Popup(PopupType),
}

/// The popups that can stand over the main view.
#[derive(Clone, Debug)]
pub enum PopupType {
    Connection,
    Edit,
    Error(String),
    Goto,
    SaveMacro(SaveMacroMode),
}

/// The three stages of saving the queue as a macro file.
#[derive(Clone, Copy, Debug, PartialEq, Eq, Structural)]
pub enum SaveMacroMode {
    Main,
    OverwriteWarning,
    FileSaved,
}

/// Which half of the main view receives the keys.
#[derive(Clone, Copy, Debug, PartialEq, Eq, Structural)]
pub enum CurrentFocus {
    Top,
    Bottom,
}

impl Default for CurrentFocus {
    fn default() -> (r: Self)
        ensures
            r == CurrentFocus::Top,
    {
        CurrentFocus::Top
    }
}

/// The four Modbus tables, in the order of the top tabs.
#[derive(Clone, Copy, Debug, PartialEq, Eq, Structural, Hash, PartialOrd, Ord)]
pub enum SelectedTopTab {
    Coils,
    DiscreteInputs,
    InputRegisters,
    HoldingRegisters,
}

impl Default for SelectedTopTab {
    fn default() -> (r: Self)
        ensures
            r == SelectedTopTab::Coils,
    {
        SelectedTopTab::Coils
    }
}

/// The number of top tabs.
pub const TOP_TAB_COUNT: usize = 4;

impl SelectedTopTab {
    /// The tab to the right of this one, or this one at the end of the bar.
    pub open spec fn following(self) -> SelectedTopTab {
        match self {
            SelectedTopTab::Coils => SelectedTopTab::DiscreteInputs,
            SelectedTopTab::DiscreteInputs => SelectedTopTab::InputRegisters,
            SelectedTopTab::InputRegisters => SelectedTopTab::HoldingRegisters,
            SelectedTopTab::HoldingRegisters => SelectedTopTab::HoldingRegisters,
        }
    }

    /// The tab to the left of this one, or this one at the start of the bar.
    pub open spec fn preceding(self) -> SelectedTopTab {
        match self {
            SelectedTopTab::Coils => SelectedTopTab::Coils,
            SelectedTopTab::DiscreteInputs => SelectedTopTab::Coils,
            SelectedTopTab::InputRegisters => SelectedTopTab::DiscreteInputs,
            SelectedTopTab::HoldingRegisters => SelectedTopTab::InputRegisters,
        }
    }

    /// The place of the tab in the tab bar, from 0.
    pub open spec fn position(self) -> nat {
        match self {
            SelectedTopTab::Coils => 0,
            SelectedTopTab::DiscreteInputs => 1,
            SelectedTopTab::InputRegisters => 2,
            SelectedTopTab::HoldingRegisters => 3,
        }
    }

    /// The tab at a place of the tab bar, if there is one.
    pub open spec fn at(i: int) -> Option<SelectedTopTab> {
        if i == 0 {
            Some(SelectedTopTab::Coils)
        } else if i == 1 {
            Some(SelectedTopTab::DiscreteInputs)
        } else if i == 2 {
            Some(SelectedTopTab::InputRegisters)
        } else if i == 3 {
            Some(SelectedTopTab::HoldingRegisters)
        } else {
            None
        }
    }

    pub fn index(self) -> (i: usize)
        ensures
            i == self.position(),
            i < TOP_TAB_COUNT,
    {
        match self {
            SelectedTopTab::Coils => 0,
            SelectedTopTab::DiscreteInputs => 1,
            SelectedTopTab::InputRegisters => 2,
            SelectedTopTab::HoldingRegisters => 3,
        }
    }

    pub fn from_repr(i: usize) -> (r: Option<Self>)
        ensures
            r == Self::at(i as int),
    {
        if i == 0 {
            Some(SelectedTopTab::Coils)
        } else if i == 1 {
            Some(SelectedTopTab::DiscreteInputs)
        } else if i == 2 {
            Some(SelectedTopTab::InputRegisters)
        } else if i == 3 {
            Some(SelectedTopTab::HoldingRegisters)
        } else {
            None
        }
    }

    /// The tab to the right, or the same tab at the end of the bar.
    pub fn next(self) -> (r: Self)
        ensures
            r == self.following(),
            r.position() == (if self.position() < 3 {
                self.position() + 1
            } else {
                3
            }),
    {
        let current_index = self.index();
        let next_index = current_index.saturating_add(1);
        match Self::from_repr(next_index) {
            Some(tab) => tab,
            None => self,
        }
    }

    /// The tab to the left, or the same tab at the start of the bar.
    pub fn previous(self) -> (r: Self)
        ensures
            r == self.preceding(),
            r.position() == (if self.position() > 0 {
                self.position() - 1
            } else {
                0
            }),
    {
        let current_index = self.index();
        let previous_index = current_index.saturating_sub(1);
        match Self::from_repr(previous_index) {
            Some(tab) => tab,
            None => self,
        }
    }

    /// The tab's title.
    pub fn name(self) -> (s: &'static str)
        ensures
            s@ == (match self {
                SelectedTopTab::Coils => "Coils"@,
                SelectedTopTab::DiscreteInputs => "Discrete Inputs"@,
                SelectedTopTab::InputRegisters => "Input Registers"@,
                SelectedTopTab::HoldingRegisters => "Holding Registers"@,
            }),
    {
        match self {
            SelectedTopTab::Coils => "Coils",
            SelectedTopTab::DiscreteInputs => "Discrete Inputs",
            SelectedTopTab::InputRegisters => "Input Registers",
            SelectedTopTab::HoldingRegisters => "Holding Registers",
        }
    }

    /// Whether the table holds bits (coils and discrete inputs) rather than words.
    pub open spec fn holds_bits(self) -> bool {
        self == SelectedTopTab::Coils || self == SelectedTopTab::DiscreteInputs
    }
}

/// The three bottom tabs.
#[derive(Clone, Copy, Debug, PartialEq, Eq, Structural)]
pub enum SelectedBottomTab {
    Connection,
    Queue,
    Log,
}

impl Default for SelectedBottomTab {
    fn default() -> (r: Self)
        ensures
            r == SelectedBottomTab::Connection,
    {
        SelectedBottomTab::Connection
    }
}

impl SelectedBottomTab {
    pub open spec fn following(self) -> SelectedBottomTab {
        match self {
            SelectedBottomTab::Connection => SelectedBottomTab::Queue,
            SelectedBottomTab::Queue => SelectedBottomTab::Log,
            SelectedBottomTab::Log => SelectedBottomTab::Log,
        }
    }

    pub open spec fn preceding(self) -> SelectedBottomTab {
        match self {
            SelectedBottomTab::Connection => SelectedBottomTab::Connection,
            SelectedBottomTab::Queue => SelectedBottomTab::Connection,
            SelectedBottomTab::Log => SelectedBottomTab::Queue,
        }
    }

    pub open spec fn position(self) -> nat {
        match self {
            SelectedBottomTab::Connection => 0,
            SelectedBottomTab::Queue => 1,
            SelectedBottomTab::Log => 2,
        }
    }

    pub open spec fn at(i: int) -> Option<SelectedBottomTab> {
        if i == 0 {
            Some(SelectedBottomTab::Connection)
        } else if i == 1 {
            Some(SelectedBottomTab::Queue)
        } else if i == 2 {
            Some(SelectedBottomTab::Log)
        } else {
            None
        }
    }

    pub fn index(self) -> (i: usize)
        ensures
            i == self.position(),
    {
        match self {
            SelectedBottomTab::Connection => 0,
            SelectedBottomTab::Queue => 1,
            SelectedBottomTab::Log => 2,
        }
    }

    pub fn from_repr(i: usize) -> (r: Option<Self>)
        ensures
            r == Self::at(i as int),
    {
        if i == 0 {
            Some(SelectedBottomTab::Connection)
        } else if i == 1 {
            Some(SelectedBottomTab::Queue)
        } else if i == 2 {
            Some(SelectedBottomTab::Log)
        } else {
            None
        }
    }

    /// The tab to the right, or the same tab at the end of the bar.
    pub fn next(self) -> (r: Self)
        ensures
            r == self.following(),
            r.position() == (if self.position() < 2 {
                self.position() + 1
            } else {
                2
            }),
    {
        let current_index = self.index();
        let next_index = current_index.saturating_add(1);
        match Self::from_repr(next_index) {
            Some(tab) => tab,
            None => self,
        }
    }

    /// The tab to the left, or the same tab at the start of the bar.
    pub fn previous(self) -> (r: Self)
        ensures
            r == self.preceding(),
            r.position() == (if self.position() > 0 {
                self.position() - 1
            } else {
                0
            }),
    {
        let current_index = self.index();
        let previous_index = current_index.saturating_sub(1);
        match Self::from_repr(previous_index) {
            Some(tab) => tab,
            None => self,
        }
    }

    /// The tab's title.
    pub fn name(self) -> (s: &'static str)
        ensures
            s@ == (match self {
                SelectedBottomTab::Connection => "Connection"@,
                SelectedBottomTab::Queue => "Queue"@,
                SelectedBottomTab::Log => "Log"@,
            }),
    {
        match self {
            SelectedBottomTab::Connection => "Connection",
            SelectedBottomTab::Queue => "Queue",
            SelectedBottomTab::Log => "Log",
        }
    }
}

/// The two buttons of the connection tab.
#[derive(Clone, Copy, Debug, PartialEq, Eq, Structural)]
pub enum SelectedConnectionButton {
    NewConnection,
    Disconnect,
}

/// Whether a cell shows the value read from the device or a value waiting to be written.
#[derive(Clone, Copy, Debug, PartialEq, Eq, Structural)]
pub enum CellState {
    Normal,
    Queued,
}

/// The two kinds of Modbus link.
#[derive(Clone, Copy, Debug, PartialEq, Eq, Structural)]
pub enum ConnectType {
    Tcp,
    Rtu,
}

impl Default for ConnectType {
    fn default() -> (r: Self)
        ensures
            r == ConnectType::Tcp,
    {
        ConnectType::Tcp
    }
}

impl ConnectType {
    pub fn name(self) -> (s: &'static str)
        ensures
            s@ == (match self {
                ConnectType::Tcp => "TCP"@,
                ConnectType::Rtu => "RTU"@,
            }),
    {
        match self {
            ConnectType::Tcp => "TCP",
            ConnectType::Rtu => "RTU",
        }
    }
}

/// The fields of the connection popup.
#[derive(Clone, Copy, Debug, PartialEq, Eq, Structural)]
pub enum ConnectingField {
    Address,
    Port,
    SerialPort,
    BaudRate,
    SlaveId,
}

} // verus!
