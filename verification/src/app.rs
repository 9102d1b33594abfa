//! The state of the client's interface and the way each key and each event changes it.

use vstd::prelude::*;
use crate::enums::{
    AppMode, ConnectType, ConnectingField, ConnectionStatus, CurrentFocus, LogEntry,
    ModbusCommandQueue, ModbusReadCommand, PopupType, SaveMacroMode, SelectedBottomTab, SelectedConnectionButton,
    SelectedTopTab,
};
use crate::event::{Effect, EffectView, Key, KeyPress, MacroSaveOutcome, Notice, TableOp, effect_view};
use crate::layout::page_start;
use crate::clock::string_push;
use crate::input::{
    CharClass, FieldInput, FieldView, ShortInput, all_digits, decimal_within, is_digit,
    lemma_empty_field_wf, lemma_field_edits_keep_wf, parse_decimal,
};
use crate::table::{TableSet, TableView};
use crate::enums::ModbusWriteCommand;
use crate::queue::{
    QueueItem, concat_all, concat_tables, content_for, lemma_sorted_items_wf, queued_content_for,
    sort_queue_items, stably_sorted, views_of,
};

verus! {

/// The most log lines kept; the oldest go first.
pub const MAX_LOG_ENTRIES: usize = 1000;

/// The most digits of the value and address popups.
pub const SHORT_NUMBER_LIMIT: usize = 5;

/// The most characters of a macro file name.
pub const FILE_NAME_LIMIT: usize = 50;

/// The largest value of a 32-bit number, the bound of a baud rate.
pub const BAUD_RATE_MAX: u32 = 4294967295;

/// The largest slave id.
pub const SLAVE_ID_MAX: u32 = 255;

/// Unicode's notion of an alphabetic or numeric character, as `char::is_alphanumeric` decides it.
pub uninterp spec fn unicode_alphanumeric(c: char) -> bool;

/// `char::is_alphanumeric`: whether the character is alphabetic or numeric in
/// the sense of Unicode. The contract names the answer and states that among
/// ASCII characters exactly the letters and digits are alphanumeric; which
/// characters beyond ASCII are is not stated here.
#[verifier::external_body]
fn char_is_alphanumeric(c: char) -> (r: bool)
    ensures
        r == unicode_alphanumeric(c),
        c <= '\u{7f}' ==> (r <==> ('a' <= c <= 'z' || 'A' <= c <= 'Z' || '0' <= c <= '9')),
{
    c.is_alphanumeric()
}

/// The text that Enter on the TCP form hands to the socket-address parser:
/// the address, a colon and the port.
pub fn socket_address_text(address: &Vec<char>, port: &Vec<char>) -> (r: String)
    ensures
        r@ == address@ + seq![':'] + port@,
{
    let mut r = String::new();
    let mut i: usize = 0;
    while i < address.len()
        invariant
            i <= address@.len(),
            r@ == address@.take(i as int),
        decreases address@.len() - i,
    {
        string_push(&mut r, address[i]);
        i = i + 1;
        proof {
            assert(r@ =~= address@.take(i as int));
        }
    }
    string_push(&mut r, ':');
    let mut j: usize = 0;
    while j < port.len()
        invariant
            i == address@.len(),
            j <= port@.len(),
            r@ == address@ + seq![':'] + port@.take(j as int),
        decreases port@.len() - j,
    {
        proof {
            assert(address@.take(i as int) =~= address@);
        }
        string_push(&mut r, port[j]);
        j = j + 1;
        proof {
            assert(r@ =~= address@ + seq![':'] + port@.take(j as int));
        }
    }
    proof {
        assert(port@.take(j as int) =~= port@);
    }
    r
}

/// The mathematical value of the client's state.
#[verifier::ext_equal]
pub struct AppView {
    pub connection_status: ConnectionStatus,
    pub current_ip_address: Option<[u8; 4]>,
    pub current_port: Option<u16>,
    pub current_serial_port: Option<String>,
    pub current_baud_rate: Option<u32>,
    pub current_slave_id: Option<u8>,
    pub selected_connection_button: SelectedConnectionButton,
    pub app_mode: AppMode,
    pub current_focus: CurrentFocus,
    pub selected_bottom_tab: SelectedBottomTab,
    pub selected_top_tab: SelectedTopTab,
    pub queue: Seq<QueueItem>,
    /// The row that the queue table has selected.
    pub queue_selected: Option<usize>,
    pub queue_item_index: usize,
    pub log: Seq<LogEntry>,
    pub log_scroll_position: usize,
    pub connect_type: ConnectType,
    pub connecting_popup_field: ConnectingField,
    pub address_input: FieldView,
    pub port_input: FieldView,
    pub serial_port_input: FieldView,
    pub baud_rate_input: FieldView,
    pub slave_id_input: FieldView,
    pub edit_input: Seq<char>,
    pub goto_input: Seq<char>,
    pub macro_input: Seq<char>,
    pub page_refresh: bool,
    pub tick_refresh: bool,
    pub help_menu_page: u8,
    pub exit: bool,
}

/// The client's interface state.
pub struct App {
    connection_status: ConnectionStatus,
    current_ip_address: Option<[u8; 4]>,
    current_port: Option<u16>,
    current_serial_port: Option<String>,
    current_baud_rate: Option<u32>,
    current_slave_id: Option<u8>,
    selected_connection_button: SelectedConnectionButton,
    app_mode: AppMode,
    current_focus: CurrentFocus,
    selected_bottom_tab: SelectedBottomTab,
    selected_top_tab: SelectedTopTab,
    queue_table_data: Vec<QueueItem>,
    queue_selected: Option<usize>,
    queue_item_index: usize,
    log_entries: Vec<LogEntry>,
    log_scroll_position: usize,
    connect_type: ConnectType,
    connecting_popup_field: ConnectingField,
    address_input: FieldInput,
    port_input: FieldInput,
    serial_port_input: FieldInput,
    baud_rate_input: FieldInput,
    slave_id_input: FieldInput,
    edit_popup_input: ShortInput,
    goto_popup_input: ShortInput,
    macro_popup_input: ShortInput,
    page_refresh: bool,
    tick_refresh: bool,
    help_menu_page: u8,
    exit: bool,
}

impl View for App {
    type V = AppView;

    closed spec fn view(&self) -> AppView {
        AppView {
            connection_status: self.connection_status,
            current_ip_address: self.current_ip_address,
            current_port: self.current_port,
            current_serial_port: self.current_serial_port,
            current_baud_rate: self.current_baud_rate,
            current_slave_id: self.current_slave_id,
            selected_connection_button: self.selected_connection_button,
            app_mode: self.app_mode,
            current_focus: self.current_focus,
            selected_bottom_tab: self.selected_bottom_tab,
            selected_top_tab: self.selected_top_tab,
            queue: self.queue_table_data@,
            queue_selected: self.queue_selected,
            queue_item_index: self.queue_item_index,
            log: self.log_entries@,
            log_scroll_position: self.log_scroll_position,
            connect_type: self.connect_type,
            connecting_popup_field: self.connecting_popup_field,
            address_input: self.address_input@,
            port_input: self.port_input@,
            serial_port_input: self.serial_port_input@,
            baud_rate_input: self.baud_rate_input@,
            slave_id_input: self.slave_id_input@,
            edit_input: self.edit_popup_input@,
            goto_input: self.goto_popup_input@,
            macro_input: self.macro_popup_input@,
            page_refresh: self.page_refresh,
            tick_refresh: self.tick_refresh,
            help_menu_page: self.help_menu_page,
            exit: self.exit,
        }
    }
}

/// The class of characters that a connection field accepts.
pub open spec fn class_of(f: ConnectingField) -> CharClass {
    match f {
        ConnectingField::Address => CharClass::Address,
        ConnectingField::SerialPort => CharClass::SerialPort,
        _ => CharClass::Digit,
    }
}

/// A character that a macro file name may hold: a Unicode letter or digit, `_` or `-`.
pub open spec fn file_name_char(c: char) -> bool {
    unicode_alphanumeric(c) || c == '_' || c == '-'
}

pub open spec fn mode_is_save_macro(mode: AppMode, m: SaveMacroMode) -> bool {
    mode matches AppMode::Popup(PopupType::SaveMacro(x)) && x == m
}

impl AppView {
    /// The state's invariant: every field well-formed for its class, the short
    /// fields within their limits, the log within its limit with the scroll
    /// position on one of its lines, the help on one of its two pages, and every
    /// queued cell in one of the four tables.
    pub open spec fn wf(self) -> bool {
        &&& self.address_input.wf(CharClass::Address)
        &&& self.port_input.wf(CharClass::Digit)
        &&& self.serial_port_input.wf(CharClass::SerialPort)
        &&& self.baud_rate_input.wf(CharClass::Digit)
        &&& self.slave_id_input.wf(CharClass::Digit)
        &&& self.edit_input.len() <= SHORT_NUMBER_LIMIT && all_digits(self.edit_input)
        &&& self.goto_input.len() <= SHORT_NUMBER_LIMIT && all_digits(self.goto_input)
        &&& self.macro_input.len() <= FILE_NAME_LIMIT
        &&& forall|i: int| 0 <= i < self.macro_input.len() ==> file_name_char(#[trigger] self.macro_input[i])
        &&& self.log.len() <= MAX_LOG_ENTRIES
        &&& (self.log.len() == 0 ==> self.log_scroll_position == 0)
        &&& (self.log.len() > 0 ==> self.log_scroll_position < self.log.len())
        &&& self.help_menu_page <= 1
        &&& forall|i: int| 0 <= i < self.queue.len() ==> (#[trigger] self.queue[i]).wf()
    }

    pub open spec fn connected(self) -> bool {
        self.connection_status == ConnectionStatus::Connected
    }

    pub open spec fn with_mode(self, mode: AppMode) -> AppView {
        AppView { app_mode: mode, ..self }
    }

    pub open spec fn table_effect(self, op: TableOp) -> Option<EffectView> {
        Some(EffectView::Table { table: self.selected_top_tab, op })
    }

    pub open spec fn report_unless_connected(self, e: Option<EffectView>) -> Option<EffectView> {
        if self.connected() {
            e
        } else {
            Some(EffectView::Report(Notice::ConnectFirst))
        }
    }

    // ----- the main view, top half focused -----

    pub open spec fn top_key(self, key: KeyPress) -> (AppView, Option<EffectView>) {
        match key.code {
            Key::Esc => (AppView { exit: true, ..self }, None),
            Key::Tab => (AppView { current_focus: CurrentFocus::Bottom, ..self }, None),
            Key::Char('q') => (
                AppView { selected_top_tab: self.selected_top_tab.preceding(), ..self },
                None,
            ),
            Key::Char('e') => (
                AppView { selected_top_tab: self.selected_top_tab.following(), ..self },
                None,
            ),
            Key::Up | Key::Char('w') => (
                self,
                self.table_effect(
                    if key.shift {
                        TableOp::PageUp
                    } else {
                        TableOp::MoveUp
                    },
                ),
            ),
            Key::Down | Key::Char('s') => (
                self,
                self.table_effect(
                    if key.shift {
                        TableOp::PageDown
                    } else {
                        TableOp::MoveDown
                    },
                ),
            ),
            Key::Left | Key::Char('a') => (self, self.table_effect(TableOp::MoveLeft)),
            Key::Right | Key::Char('d') => (self, self.table_effect(TableOp::MoveRight)),
            Key::Char('r') => (self, self.report_unless_connected(Some(EffectView::ReadCurrentPage))),
            Key::Char('R') => (AppView { page_refresh: !self.page_refresh, ..self }, None),
            Key::Char('T') => (AppView { tick_refresh: !self.tick_refresh, ..self }, None),
            Key::Char('u') => (
                self,
                if self.connected() {
                    self.table_effect(TableOp::RevertCurrentCell)
                } else {
                    None
                },
            ),
            Key::Char('g') => (self.with_mode(AppMode::Popup(PopupType::Goto)), None),
            Key::Enter => (self, self.report_unless_connected(Some(EffectView::ApplyQueued))),
            Key::Char(' ') => if self.connected() {
                match self.selected_top_tab {
                    SelectedTopTab::Coils => (self, self.table_effect(TableOp::ToggleCurrentCoil)),
                    SelectedTopTab::HoldingRegisters => (
                        self.with_mode(AppMode::Popup(PopupType::Edit)),
                        None,
                    ),
                    _ => (self, None),
                }
            } else {
                (self, Some(EffectView::Report(Notice::ConnectFirst)))
            },
            Key::Char('?') => (self.with_mode(AppMode::Help), None),
            _ => (self, None),
        }
    }

    // ----- the main view, bottom half focused -----

    /// The keys that every bottom tab shares.
    pub open spec fn bottom_common_key(self, key: KeyPress) -> AppView {
        match key.code {
            Key::Esc => AppView { exit: true, ..self },
            Key::Tab => AppView { current_focus: CurrentFocus::Top, ..self },
            Key::Char('q') => AppView {
                selected_bottom_tab: self.selected_bottom_tab.preceding(),
                ..self
            },
            Key::Char('e') => AppView {
                selected_bottom_tab: self.selected_bottom_tab.following(),
                ..self
            },
            Key::Char('?') => self.with_mode(AppMode::Help),
            _ => self,
        }
    }

    pub open spec fn connection_tab_key(self, key: KeyPress) -> (AppView, Option<EffectView>) {
        match key.code {
            Key::Left | Key::Char('a') => (
                AppView {
                    selected_connection_button: SelectedConnectionButton::NewConnection,
                    ..self
                },
                None,
            ),
            Key::Right | Key::Char('d') => (
                AppView {
                    selected_connection_button: SelectedConnectionButton::Disconnect,
                    ..self
                },
                None,
            ),
            Key::Enter => match self.selected_connection_button {
                SelectedConnectionButton::NewConnection => (
                    self.with_mode(AppMode::Popup(PopupType::Connection)),
                    None,
                ),
                SelectedConnectionButton::Disconnect => (self, Some(EffectView::Disconnect)),
            },
            _ => (self, None),
        }
    }

    /// Down in the queue: the row after the selected one, wrapping to the first.
    pub open spec fn queue_next(self) -> AppView {
        let index: usize = match self.queue_selected {
            Some(i) => if i >= self.queue.len() - 1 {
                0
            } else {
                (i + 1) as usize
            },
            None => 0,
        };
        AppView { queue_item_index: index, queue_selected: Some(index), ..self }
    }

    /// Up in the queue: the row before the selected one, wrapping to the last.
    pub open spec fn queue_previous(self) -> AppView {
        let index: usize = match self.queue_selected {
            Some(i) => if i == 0 {
                (self.queue.len() - 1) as usize
            } else {
                (i - 1) as usize
            },
            None => 0,
        };
        AppView { queue_item_index: index, queue_selected: Some(index), ..self }
    }

    pub open spec fn queue_tab_key(self, key: KeyPress) -> (AppView, Option<EffectView>) {
        match key.code {
            Key::Up => (self.queue_previous(), None),
            Key::Down => (self.queue_next(), None),
            Key::Char('g') => if self.queue.len() > 0 {
                let item = self.queue[self.queue_item_index as int];
                let tab = SelectedTopTab::at(item.table_index as int).unwrap();
                (
                    AppView { selected_top_tab: tab, ..self },
                    Some(EffectView::Table { table: tab, op: TableOp::GoToCell(item.address) }),
                )
            } else {
                (self, None)
            },
            Key::Char('r') => if self.queue.len() > 0 {
                let item = self.queue[self.queue_item_index as int];
                (
                    self,
                    Some(
                        EffectView::RevertQueueItem {
                            table_index: item.table_index,
                            address: item.address,
                        },
                    ),
                )
            } else {
                (self, None)
            },
            Key::Char('m') => if self.connected() {
                if self.current_ip_address is None {
                    (self, Some(EffectView::Report(Notice::MacroNeedsTcp)))
                } else if self.queue.len() > 0 {
                    (self.with_mode(AppMode::Popup(PopupType::SaveMacro(SaveMacroMode::Main))), None)
                } else {
                    (self, Some(EffectView::Report(Notice::QueueEmpty)))
                }
            } else {
                (self, Some(EffectView::Report(Notice::ConnectFirstToSave)))
            },
            _ => (self, None),
        }
    }

    pub open spec fn log_scroll_up(self) -> AppView {
        AppView {
            log_scroll_position: if self.log_scroll_position > 0 {
                (self.log_scroll_position - 1) as usize
            } else {
                0
            },
            ..self
        }
    }

    pub open spec fn log_scroll_down(self) -> AppView {
        if self.log.len() == 0 {
            self
        } else {
            AppView {
                log_scroll_position: if self.log_scroll_position + 1 < self.log.len() - 1 {
                    (self.log_scroll_position + 1) as usize
                } else {
                    (self.log.len() - 1) as usize
                },
                ..self
            }
        }
    }

    pub open spec fn log_tab_key(self, key: KeyPress) -> AppView {
        match key.code {
            Key::Up => self.log_scroll_up(),
            Key::Down => self.log_scroll_down(),
            Key::Char('c') => AppView { log: Seq::empty(), log_scroll_position: 0, ..self },
            _ => self,
        }
    }

    pub open spec fn bottom_key(self, key: KeyPress) -> (AppView, Option<EffectView>) {
        let v = self.bottom_common_key(key);
        match v.selected_bottom_tab {
            SelectedBottomTab::Connection => v.connection_tab_key(key),
            SelectedBottomTab::Queue => v.queue_tab_key(key),
            SelectedBottomTab::Log => (v.log_tab_key(key), None),
        }
    }

    // ----- the help pages -----

    pub open spec fn help_key(self, key: KeyPress) -> AppView {
        match key.code {
            Key::Esc => AppView { exit: true, ..self },
            Key::Char('?') => self.with_mode(AppMode::Main),
            Key::Tab => AppView {
                help_menu_page: if self.help_menu_page == 0 {
                    1
                } else {
                    0
                },
                ..self
            },
            _ => self,
        }
    }

    // ----- the connection popup -----

    pub open spec fn field(self, f: ConnectingField) -> FieldView {
        match f {
            ConnectingField::Address => self.address_input,
            ConnectingField::Port => self.port_input,
            ConnectingField::SerialPort => self.serial_port_input,
            ConnectingField::BaudRate => self.baud_rate_input,
            ConnectingField::SlaveId => self.slave_id_input,
        }
    }

    pub open spec fn with_field(self, f: ConnectingField, fv: FieldView) -> AppView {
        match f {
            ConnectingField::Address => AppView { address_input: fv, ..self },
            ConnectingField::Port => AppView { port_input: fv, ..self },
            ConnectingField::SerialPort => AppView { serial_port_input: fv, ..self },
            ConnectingField::BaudRate => AppView { baud_rate_input: fv, ..self },
            ConnectingField::SlaveId => AppView { slave_id_input: fv, ..self },
        }
    }

    /// The result of an edit of the current field: the new field, or a beep.
    pub open spec fn field_edit(self, edited: Option<FieldView>) -> (AppView, Option<EffectView>) {
        match edited {
            Some(fv) => (self.with_field(self.connecting_popup_field, fv), None),
            None => (self, Some(EffectView::Beep)),
        }
    }

    /// The field that Up, Down and Tab move to.
    pub open spec fn next_field(self) -> ConnectingField {
        match self.connect_type {
            ConnectType::Tcp => match self.connecting_popup_field {
                ConnectingField::Address => ConnectingField::Port,
                _ => ConnectingField::Address,
            },
            ConnectType::Rtu => match self.connecting_popup_field {
                ConnectingField::SerialPort => ConnectingField::BaudRate,
                ConnectingField::BaudRate => ConnectingField::SlaveId,
                _ => ConnectingField::SerialPort,
            },
        }
    }

    /// Enter on the TCP form: both fields must hold text; the driver parses the socket address.
    pub open spec fn tcp_enter(self) -> (AppView, Option<EffectView>) {
        if self.address_input.chars.len() < 2 || self.port_input.chars.len() < 2 {
            (self, Some(EffectView::Beep))
        } else {
            (
                self,
                Some(
                    EffectView::ConnectTcp {
                        address: self.address_input.text(),
                        port: self.port_input.text(),
                    },
                ),
            )
        }
    }

    /// The state once the driver has accepted the TCP address: the form is cleared and closed.
    pub open spec fn tcp_accepted(self) -> AppView {
        AppView {
            app_mode: AppMode::Main,
            address_input: FieldView::empty(),
            port_input: FieldView::empty(),
            connecting_popup_field: ConnectingField::Address,
            ..self
        }
    }

    /// Enter on the RTU form: a port name, a baud rate that fits 32 bits and a
    /// slave id of at most 255 open the link and clear the form; anything else beeps.
    pub open spec fn rtu_enter(self) -> (AppView, Option<EffectView>) {
        let port = self.serial_port_input.text();
        let baud = decimal_within(self.baud_rate_input.text(), BAUD_RATE_MAX as nat);
        let slave = decimal_within(self.slave_id_input.text(), SLAVE_ID_MAX as nat);
        if port.len() > 0 && baud is Some && slave is Some {
            (
                AppView {
                    app_mode: AppMode::Main,
                    serial_port_input: FieldView::empty(),
                    baud_rate_input: FieldView::empty(),
                    slave_id_input: FieldView::empty(),
                    connecting_popup_field: ConnectingField::SerialPort,
                    ..self
                },
                Some(
                    EffectView::ConnectRtu {
                        port,
                        baud_rate: baud.unwrap() as u32,
                        slave_id: slave.unwrap() as u8,
                    },
                ),
            )
        } else {
            (self, Some(EffectView::Beep))
        }
    }

    pub open spec fn connection_popup_key(self, key: KeyPress) -> (AppView, Option<EffectView>) {
        let f = self.connecting_popup_field;
        let fv = self.field(f);
        match key.code {
            Key::Esc => (AppView { exit: true, ..self }, None),
            Key::Backspace => self.field_edit(fv.backspace()),
            Key::Enter => match self.connect_type {
                ConnectType::Tcp => self.tcp_enter(),
                ConnectType::Rtu => self.rtu_enter(),
            },
            Key::Left => (self.with_field(f, fv.left()), None),
            Key::Right => (self.with_field(f, fv.right()), None),
            Key::Up | Key::Down | Key::Tab => (
                AppView { connecting_popup_field: self.next_field(), ..self },
                None,
            ),
            Key::Delete => self.field_edit(fv.delete()),
            Key::Char(c) => self.field_edit(fv.typed(class_of(f), c)),
            Key::F(1) => if self.connect_type != ConnectType::Tcp {
                (
                    AppView {
                        connect_type: ConnectType::Tcp,
                        connecting_popup_field: ConnectingField::Address,
                        ..self
                    },
                    None,
                )
            } else {
                (self, None)
            },
            Key::F(2) => if self.connect_type != ConnectType::Rtu {
                (
                    AppView {
                        connect_type: ConnectType::Rtu,
                        connecting_popup_field: ConnectingField::SerialPort,
                        ..self
                    },
                    None,
                )
            } else {
                (self, None)
            },
            _ => (self, None),
        }
    }

    // ----- the value popup -----

    pub open spec fn edit_popup_key(self, key: KeyPress) -> (AppView, Option<EffectView>) {
        match key.code {
            Key::Esc => (AppView { edit_input: Seq::empty(), app_mode: AppMode::Main, ..self }, None),
            Key::Backspace => if self.edit_input.len() > 0 {
                (AppView { edit_input: self.edit_input.drop_last(), ..self }, None)
            } else {
                (self, Some(EffectView::Beep))
            },
            Key::Enter => match decimal_within(self.edit_input, u32::MAX as nat) {
                Some(v) => if v > 65535 {
                    (self, Some(EffectView::Beep))
                } else {
                    (
                        AppView { edit_input: Seq::empty(), app_mode: AppMode::Main, ..self },
                        self.table_effect(
                            TableOp::QueueCurrentCell(
                                content_for(self.selected_top_tab, v as u16),
                            ),
                        ),
                    )
                },
                None => (self, Some(EffectView::Beep)),
            },
            Key::Char(c) => if is_digit(c) && self.edit_input.len() < SHORT_NUMBER_LIMIT {
                (AppView { edit_input: self.edit_input.push(c), ..self }, None)
            } else {
                (self, Some(EffectView::Beep))
            },
            _ => (self, None),
        }
    }

    // ----- the address popup -----

    pub open spec fn goto_popup_key(self, key: KeyPress) -> (AppView, Option<EffectView>) {
        match key.code {
            Key::Esc => (AppView { goto_input: Seq::empty(), app_mode: AppMode::Main, ..self }, None),
            Key::Backspace => if self.goto_input.len() > 0 {
                (AppView { goto_input: self.goto_input.drop_last(), ..self }, None)
            } else {
                (self, Some(EffectView::Beep))
            },
            Key::Enter => match decimal_within(self.goto_input, u32::MAX as nat) {
                Some(v) => if v < 1 || v > 65535 {
                    (self, Some(EffectView::Beep))
                } else {
                    (
                        AppView { goto_input: Seq::empty(), app_mode: AppMode::Main, ..self },
                        self.table_effect(TableOp::GoToCell((v - 1) as u16)),
                    )
                },
                None => (self, Some(EffectView::Beep)),
            },
            Key::Char(c) => if is_digit(c) && self.goto_input.len() < SHORT_NUMBER_LIMIT {
                (AppView { goto_input: self.goto_input.push(c), ..self }, None)
            } else {
                (self, Some(EffectView::Beep))
            },
            _ => (self, None),
        }
    }

    // ----- the macro popup -----

    /// A character typed into the file name, given whether Unicode counts it as alphanumeric
    /// (as `char::is_alphanumeric` answers).
    pub open spec fn macro_char(self, c: char, alphanumeric: bool) -> (AppView, Option<EffectView>) {
        if (alphanumeric || c == '_' || c == '-') && self.macro_input.len() < FILE_NAME_LIMIT {
            (AppView { macro_input: self.macro_input.push(c), ..self }, None)
        } else {
            (self, Some(EffectView::Beep))
        }
    }

    pub open spec fn macro_popup_key(self, m: SaveMacroMode, key: KeyPress) -> (
        AppView,
        Option<EffectView>,
    ) {
        match m {
            SaveMacroMode::Main => match key.code {
                Key::Esc => (
                    AppView { macro_input: Seq::empty(), app_mode: AppMode::Main, ..self },
                    None,
                ),
                Key::Backspace => if self.macro_input.len() > 0 {
                    (AppView { macro_input: self.macro_input.drop_last(), ..self }, None)
                } else {
                    (self, Some(EffectView::Beep))
                },
                Key::Enter => (
                    self,
                    Some(EffectView::SaveMacro { file_name: self.macro_input, overwrite: false }),
                ),
                Key::Char(c) => self.macro_char(c, unicode_alphanumeric(c)),
                _ => (self, None),
            },
            SaveMacroMode::OverwriteWarning => match key.code {
                Key::Esc => (
                    AppView { macro_input: Seq::empty(), app_mode: AppMode::Main, ..self },
                    None,
                ),
                Key::Char('y') => (
                    self,
                    Some(EffectView::SaveMacro { file_name: self.macro_input, overwrite: true }),
                ),
                Key::Char('n') => (
                    self.with_mode(AppMode::Popup(PopupType::SaveMacro(SaveMacroMode::Main))),
                    None,
                ),
                _ => (self, None),
            },
            SaveMacroMode::FileSaved => match key.code {
                Key::Enter => (self.with_mode(AppMode::Main), None),
                _ => (self, None),
            },
        }
    }

    /// What a key does: the new state, and what the driver must do.
    pub open spec fn key_step(self, key: KeyPress) -> (AppView, Option<EffectView>) {
        if !key.pressed {
            (self, None)
        } else {
            match self.app_mode {
                AppMode::Main => match self.current_focus {
                    CurrentFocus::Top => self.top_key(key),
                    CurrentFocus::Bottom => self.bottom_key(key),
                },
                AppMode::Help => (self.help_key(key), None),
                AppMode::Popup(popup) => match popup {
                    PopupType::Connection => self.connection_popup_key(key),
                    PopupType::Edit => self.edit_popup_key(key),
                    PopupType::Error(_) => match key.code {
                        Key::Enter => (self.with_mode(AppMode::Main), None),
                        _ => (self, None),
                    },
                    PopupType::Goto => self.goto_popup_key(key),
                    PopupType::SaveMacro(m) => self.macro_popup_key(m, key),
                },
            }
        }
    }

    /// The queue-tab keys on which the client would fail are left out: Up on an
    /// empty queue whose first row is selected (the row count less one falls
    /// below zero), Down on an empty queue with any row selected, and `g` or `r`
    /// where the selected index lies beyond a non-empty queue.
    pub open spec fn queue_key_safe(self, code: Key) -> bool {
        match code {
            Key::Up => self.queue_selected == Some(0usize) ==> self.queue.len() > 0,
            Key::Down => self.queue_selected is Some ==> self.queue.len() > 0,
            Key::Char('g') | Key::Char('r') => self.queue.len() > 0 ==> self.queue_item_index
                < self.queue.len(),
            _ => true,
        }
    }

    /// The keys on which the client would index past the end of the queue, or
    /// step below zero while wrapping its selection, are left out.
    pub open spec fn key_allowed(self, key: KeyPress) -> bool {
        key.pressed ==> match self.app_mode {
            AppMode::Main => (self.current_focus == CurrentFocus::Bottom
                && self.selected_bottom_tab == SelectedBottomTab::Queue) ==> self.queue_key_safe(key.code),
            _ => true,
        }
    }
}

proof fn lemma_top_key_wf(v: AppView, key: KeyPress)
    requires
        v.wf(),
    ensures
        v.top_key(key).0.wf(),
{
}

proof fn lemma_bottom_key_wf(v: AppView, key: KeyPress)
    requires
        v.wf(),
        v.selected_bottom_tab == SelectedBottomTab::Queue ==> v.queue_key_safe(key.code),
    ensures
        v.bottom_key(key).0.wf(),
{
    let w = v.bottom_common_key(key);
    assert(w.wf());
    if w.selected_bottom_tab == SelectedBottomTab::Queue {
        assert(w.queue == v.queue);
        if key.code == Key::Char('g') && w.queue.len() > 0 {
            let item = w.queue[w.queue_item_index as int];
            assert(item.wf());
        }
    }
}

proof fn lemma_with_field_wf(v: AppView, f: ConnectingField, fv: FieldView)
    requires
        v.wf(),
        fv.wf(class_of(f)),
    ensures
        v.with_field(f, fv).wf(),
{
}

proof fn lemma_field_edit_wf(v: AppView, edited: Option<FieldView>)
    requires
        v.wf(),
        edited matches Some(fv) ==> fv.wf(class_of(v.connecting_popup_field)),
    ensures
        v.field_edit(edited).0.wf(),
{
    if let Some(fv) = edited {
        lemma_with_field_wf(v, v.connecting_popup_field, fv);
    }
}

proof fn lemma_connection_popup_key_wf(v: AppView, key: KeyPress)
    requires
        v.wf(),
    ensures
        v.connection_popup_key(key).0.wf(),
{
    let f = v.connecting_popup_field;
    let fv = v.field(f);
    assert(fv.wf(class_of(f)));
    match key.code {
        Key::Backspace => {
            lemma_field_edits_keep_wf(fv, class_of(f), ' ');
            lemma_field_edit_wf(v, fv.backspace());
        },
        Key::Delete => {
            lemma_field_edits_keep_wf(fv, class_of(f), ' ');
            lemma_field_edit_wf(v, fv.delete());
        },
        Key::Char(c) => {
            lemma_field_edits_keep_wf(fv, class_of(f), c);
            lemma_field_edit_wf(v, fv.typed(class_of(f), c));
        },
        Key::Left => {
            lemma_field_edits_keep_wf(fv, class_of(f), ' ');
            lemma_with_field_wf(v, f, fv.left());
        },
        Key::Right => {
            lemma_field_edits_keep_wf(fv, class_of(f), ' ');
            lemma_with_field_wf(v, f, fv.right());
        },
        Key::Enter => {
            lemma_empty_field_wf(CharClass::Address);
            lemma_empty_field_wf(CharClass::Digit);
            lemma_empty_field_wf(CharClass::SerialPort);
        },
        _ => {},
    }
}

proof fn lemma_number_popups_wf(v: AppView, key: KeyPress)
    requires
        v.wf(),
    ensures
        v.edit_popup_key(key).0.wf(),
        v.goto_popup_key(key).0.wf(),
{
    if let Key::Char(c) = key.code {
        if is_digit(c) {
            assert(all_digits(v.edit_input.push(c)));
            assert(all_digits(v.goto_input.push(c)));
        }
    }
    if v.edit_input.len() > 0 {
        assert(all_digits(v.edit_input.drop_last()));
    }
    if v.goto_input.len() > 0 {
        assert(all_digits(v.goto_input.drop_last()));
    }
    assert(all_digits(Seq::<char>::empty()));
}

proof fn lemma_macro_popup_key_wf(v: AppView, m: SaveMacroMode, key: KeyPress)
    requires
        v.wf(),
    ensures
        v.macro_popup_key(m, key).0.wf(),
{
    if let Key::Char(c) = key.code {
        let w = v.macro_input.push(c);
        if file_name_char(c) {
            assert(forall|i: int| 0 <= i < w.len() ==> file_name_char(#[trigger] w[i]));
        }
    }
    if v.macro_input.len() > 0 {
        let w = v.macro_input.drop_last();
        assert(forall|i: int| 0 <= i < w.len() ==> file_name_char(#[trigger] w[i]));
    }
}

/// Every key keeps the state well-formed: whatever is typed, the fields keep
/// their final blank and their character classes, the short fields stay within
/// their limits, the log scroll position stays on a line, and the help stays
/// on one of its pages.
pub proof fn lemma_key_step_keeps_wf(v: AppView, key: KeyPress)
    requires
        v.wf(),
        v.key_allowed(key),
    ensures
        v.key_step(key).0.wf(),
{
    if key.pressed {
        match v.app_mode {
            AppMode::Main => match v.current_focus {
                CurrentFocus::Top => lemma_top_key_wf(v, key),
                CurrentFocus::Bottom => lemma_bottom_key_wf(v, key),
            },
            AppMode::Help => {},
            AppMode::Popup(popup) => match popup {
                PopupType::Connection => lemma_connection_popup_key_wf(v, key),
                PopupType::Edit => lemma_number_popups_wf(v, key),
                PopupType::Error(_) => {},
                PopupType::Goto => lemma_number_popups_wf(v, key),
                PopupType::SaveMacro(m) => lemma_macro_popup_key_wf(v, m, key),
            },
        }
    }
}

/// The kind of screen, without the popup's payload.
#[derive(Clone, Copy, Debug, PartialEq, Eq, Structural)]
enum ModeKind {
    Main,
    Help,
    Connection,
    Edit,
    Error,
    Goto,
    SaveMacro(SaveMacroMode),
}

spec fn mode_kind_of(mode: AppMode) -> ModeKind {
    match mode {
        AppMode::Main => ModeKind::Main,
        AppMode::Help => ModeKind::Help,
        AppMode::Popup(p) => match p {
            PopupType::Connection => ModeKind::Connection,
            PopupType::Edit => ModeKind::Edit,
            PopupType::Error(_) => ModeKind::Error,
            PopupType::Goto => ModeKind::Goto,
            PopupType::SaveMacro(m) => ModeKind::SaveMacro(m),
        },
    }
}

/// The state of a freshly started client.
pub open spec fn initial_view() -> AppView {
    AppView {
        connection_status: ConnectionStatus::NotConnected,
        current_ip_address: None,
        current_port: None,
        current_serial_port: None,
        current_baud_rate: None,
        current_slave_id: None,
        selected_connection_button: SelectedConnectionButton::NewConnection,
        app_mode: AppMode::Main,
        current_focus: CurrentFocus::Top,
        selected_bottom_tab: SelectedBottomTab::Connection,
        selected_top_tab: SelectedTopTab::Coils,
        queue: Seq::empty(),
        queue_selected: None,
        queue_item_index: 0,
        log: Seq::empty(),
        log_scroll_position: 0,
        connect_type: ConnectType::Tcp,
        connecting_popup_field: ConnectingField::Address,
        address_input: FieldView::empty(),
        port_input: FieldView::empty(),
        serial_port_input: FieldView::empty(),
        baud_rate_input: FieldView::empty(),
        slave_id_input: FieldView::empty(),
        edit_input: Seq::empty(),
        goto_input: Seq::empty(),
        macro_input: Seq::empty(),
        page_refresh: false,
        tick_refresh: false,
        help_menu_page: 0,
        exit: false,
    }
}

impl App {
    /// The short fields keep their cursor at their end, and the state is well-formed.
    pub closed spec fn wf(self) -> bool {
        &&& self.inputs_wf()
        &&& self@.wf()
    }

    closed spec fn inputs_wf(self) -> bool {
        &&& self.address_input.char_class() == CharClass::Address
        &&& self.port_input.char_class() == CharClass::Digit
        &&& self.serial_port_input.char_class() == CharClass::SerialPort
        &&& self.baud_rate_input.char_class() == CharClass::Digit
        &&& self.slave_id_input.char_class() == CharClass::Digit
        &&& self.edit_popup_input.wf()
        &&& self.goto_popup_input.wf()
        &&& self.macro_popup_input.wf()
    }

    pub fn new() -> (r: App)
        ensures
            r.wf(),
            r@ == initial_view(),
    {
        let r = App {
            connection_status: ConnectionStatus::default(),
            current_ip_address: None,
            current_port: None,
            current_serial_port: None,
            current_baud_rate: None,
            current_slave_id: None,
            selected_connection_button: SelectedConnectionButton::NewConnection,
            app_mode: AppMode::Main,
            current_focus: CurrentFocus::default(),
            selected_bottom_tab: SelectedBottomTab::default(),
            selected_top_tab: SelectedTopTab::default(),
            queue_table_data: Vec::new(),
            queue_selected: None,
            queue_item_index: 0,
            log_entries: Vec::new(),
            log_scroll_position: 0,
            connect_type: ConnectType::default(),
            connecting_popup_field: ConnectingField::Address,
            address_input: FieldInput::new(CharClass::Address),
            port_input: FieldInput::new(CharClass::Digit),
            serial_port_input: FieldInput::new(CharClass::SerialPort),
            baud_rate_input: FieldInput::new(CharClass::Digit),
            slave_id_input: FieldInput::new(CharClass::Digit),
            edit_popup_input: ShortInput::new(),
            goto_popup_input: ShortInput::new(),
            macro_popup_input: ShortInput::new(),
            page_refresh: false,
            tick_refresh: false,
            help_menu_page: 0,
            exit: false,
        };
        proof {
            lemma_empty_field_wf(CharClass::Address);
            lemma_empty_field_wf(CharClass::Digit);
            lemma_empty_field_wf(CharClass::SerialPort);
            assert(all_digits(Seq::<char>::empty()));
            assert(r@ =~= initial_view());
        }
        r
    }

    fn mode_kind(&self) -> (k: ModeKind)
        ensures
            k == mode_kind_of(self.app_mode),
    {
        match &self.app_mode {
            AppMode::Main => ModeKind::Main,
            AppMode::Help => ModeKind::Help,
            AppMode::Popup(p) => match p {
                PopupType::Connection => ModeKind::Connection,
                PopupType::Edit => ModeKind::Edit,
                PopupType::Error(_) => ModeKind::Error,
                PopupType::Goto => ModeKind::Goto,
                PopupType::SaveMacro(m) => ModeKind::SaveMacro(*m),
            },
        }
    }

    fn is_connected(&self) -> (b: bool)
        ensures
            b == self@.connected(),
    {
        match self.connection_status {
            ConnectionStatus::Connected => true,
            ConnectionStatus::NotConnected => false,
        }
    }

    fn table_effect(&self, op: TableOp) -> (r: Option<Effect>)
        ensures
            effect_view(r) == self@.table_effect(op),
    {
        Some(Effect::Table { table: self.selected_top_tab, op })
    }

    // ----- the main view -----

    fn top_key(&mut self, key: KeyPress) -> (r: Option<Effect>)
        requires
            old(self).inputs_wf(),
        ensures
            final(self)@ == old(self)@.top_key(key).0,
            effect_view(r) == old(self)@.top_key(key).1,
            final(self).inputs_wf(),
    {
        let connected = self.is_connected();
        match key.code {
            Key::Esc => {
                self.exit = true;
                None
            },
            Key::Tab => {
                self.current_focus = CurrentFocus::Bottom;
                None
            },
            Key::Char('q') => {
                self.selected_top_tab = self.selected_top_tab.previous();
                None
            },
            Key::Char('e') => {
                self.selected_top_tab = self.selected_top_tab.next();
                None
            },
            Key::Up | Key::Char('w') => {
                if key.shift {
                    self.table_effect(TableOp::PageUp)
                } else {
                    self.table_effect(TableOp::MoveUp)
                }
            },
            Key::Down | Key::Char('s') => {
                if key.shift {
                    self.table_effect(TableOp::PageDown)
                } else {
                    self.table_effect(TableOp::MoveDown)
                }
            },
            Key::Left | Key::Char('a') => self.table_effect(TableOp::MoveLeft),
            Key::Right | Key::Char('d') => self.table_effect(TableOp::MoveRight),
            Key::Char('r') => {
                if connected {
                    Some(Effect::ReadCurrentPage)
                } else {
                    Some(Effect::Report(Notice::ConnectFirst))
                }
            },
            Key::Char('R') => {
                self.page_refresh = match self.page_refresh {
                    true => false,
                    false => true,
                };
                None
            },
            Key::Char('T') => {
                self.tick_refresh = match self.tick_refresh {
                    true => false,
                    false => true,
                };
                None
            },
            Key::Char('u') => {
                if connected {
                    self.table_effect(TableOp::RevertCurrentCell)
                } else {
                    None
                }
            },
            Key::Char('g') => {
                self.app_mode = AppMode::Popup(PopupType::Goto);
                None
            },
            Key::Enter => {
                if connected {
                    Some(Effect::ApplyQueued)
                } else {
                    Some(Effect::Report(Notice::ConnectFirst))
                }
            },
            Key::Char(' ') => {
                if connected {
                    match self.selected_top_tab {
                        SelectedTopTab::Coils => self.table_effect(TableOp::ToggleCurrentCoil),
                        SelectedTopTab::HoldingRegisters => {
                            self.app_mode = AppMode::Popup(PopupType::Edit);
                            None
                        },
                        _ => None,
                    }
                } else {
                    Some(Effect::Report(Notice::ConnectFirst))
                }
            },
            Key::Char('?') => {
                self.app_mode = AppMode::Help;
                None
            },
            _ => None,
        }
    }

    fn bottom_common_key(&mut self, key: KeyPress)
        requires
            old(self).inputs_wf(),
        ensures
            final(self)@ == old(self)@.bottom_common_key(key),
            final(self).inputs_wf(),
    {
        match key.code {
            Key::Esc => self.exit = true,
            Key::Tab => self.current_focus = CurrentFocus::Top,
            Key::Char('q') => self.selected_bottom_tab = self.selected_bottom_tab.previous(),
            Key::Char('e') => self.selected_bottom_tab = self.selected_bottom_tab.next(),
            Key::Char('?') => self.app_mode = AppMode::Help,
            _ => {},
        }
    }

    fn connection_tab_key(&mut self, key: KeyPress) -> (r: Option<Effect>)
        requires
            old(self).inputs_wf(),
        ensures
            final(self)@ == old(self)@.connection_tab_key(key).0,
            effect_view(r) == old(self)@.connection_tab_key(key).1,
            final(self).inputs_wf(),
    {
        match key.code {
            Key::Left | Key::Char('a') => {
                if let SelectedConnectionButton::Disconnect = self.selected_connection_button {
                    self.selected_connection_button = SelectedConnectionButton::NewConnection;
                }
                None
            },
            Key::Right | Key::Char('d') => {
                if let SelectedConnectionButton::NewConnection = self.selected_connection_button {
                    self.selected_connection_button = SelectedConnectionButton::Disconnect;
                }
                None
            },
            Key::Enter => match self.selected_connection_button {
                SelectedConnectionButton::NewConnection => {
                    self.app_mode = AppMode::Popup(PopupType::Connection);
                    None
                },
                SelectedConnectionButton::Disconnect => Some(Effect::Disconnect),
            },
            _ => None,
        }
    }

    /// Moves the queue selection down, wrapping to the first row.
    fn queue_select_next_item(&mut self)
        requires
            old(self).inputs_wf(),
            old(self).queue_selected is Some ==> old(self).queue_table_data@.len() > 0,
        ensures
            final(self)@ == old(self)@.queue_next(),
            final(self).inputs_wf(),
    {
        self.queue_item_index = match self.queue_selected {
            Some(i) => {
                if i >= self.queue_table_data.len() - 1 {
                    0
                } else {
                    i + 1
                }
            },
            None => 0,
        };
        self.queue_selected = Some(self.queue_item_index);
    }

    /// Moves the queue selection up, wrapping to the last row.
    fn queue_select_previous_item(&mut self)
        requires
            old(self).inputs_wf(),
            old(self).queue_selected == Some(0usize) ==> old(self).queue_table_data@.len() > 0,
        ensures
            final(self)@ == old(self)@.queue_previous(),
            final(self).inputs_wf(),
    {
        self.queue_item_index = match self.queue_selected {
            Some(i) => {
                if i == 0 {
                    self.queue_table_data.len() - 1
                } else {
                    i - 1
                }
            },
            None => 0,
        };
        self.queue_selected = Some(self.queue_item_index);
    }

    fn queue_tab_key(&mut self, key: KeyPress) -> (r: Option<Effect>)
        requires
            old(self).wf(),
            old(self)@.queue_key_safe(key.code),
        ensures
            final(self)@ == old(self)@.queue_tab_key(key).0,
            effect_view(r) == old(self)@.queue_tab_key(key).1,
            final(self).inputs_wf(),
    {
        match key.code {
            Key::Up => {
                self.queue_select_previous_item();
                None
            },
            Key::Down => {
                self.queue_select_next_item();
                None
            },
            Key::Char('g') => {
                if self.queue_table_data.len() > 0 {
                    let item = self.queue_table_data[self.queue_item_index];
                    proof {
                        assert(self@.queue[self.queue_item_index as int].wf());
                    }
                    let tab = match SelectedTopTab::from_repr(item.table_index) {
                        Some(t) => t,
                        None => self.selected_top_tab,
                    };
                    self.selected_top_tab = tab;
                    Some(Effect::Table { table: tab, op: TableOp::GoToCell(item.address) })
                } else {
                    None
                }
            },
            Key::Char('r') => {
                if self.queue_table_data.len() > 0 {
                    let item = self.queue_table_data[self.queue_item_index];
                    Some(
                        Effect::RevertQueueItem {
                            table_index: item.table_index,
                            address: item.address,
                        },
                    )
                } else {
                    None
                }
            },
            Key::Char('m') => {
                if self.is_connected() {
                    if self.current_ip_address.is_none() {
                        Some(Effect::Report(Notice::MacroNeedsTcp))
                    } else if self.queue_table_data.len() > 0 {
                        self.app_mode = AppMode::Popup(PopupType::SaveMacro(SaveMacroMode::Main));
                        None
                    } else {
                        Some(Effect::Report(Notice::QueueEmpty))
                    }
                } else {
                    Some(Effect::Report(Notice::ConnectFirstToSave))
                }
            },
            _ => None,
        }
    }

    fn log_scroll_up(&mut self)
        ensures
            final(self)@ == old(self)@.log_scroll_up(),
            final(self).inputs_wf() == old(self).inputs_wf(),
    {
        self.log_scroll_position = self.log_scroll_position.saturating_sub(1);
    }

    fn log_scroll_down(&mut self)
        requires
            old(self)@.wf(),
        ensures
            final(self)@ == old(self)@.log_scroll_down(),
            final(self).inputs_wf() == old(self).inputs_wf(),
    {
        if self.log_entries.len() == 0 {
            return ;
        }
        let max = self.log_entries.len().saturating_sub(1);
        let next = self.log_scroll_position + 1;
        self.log_scroll_position = if next < max {
            next
        } else {
            max
        };
    }

    fn log_tab_key(&mut self, key: KeyPress)
        requires
            old(self).wf(),
        ensures
            final(self)@ == old(self)@.log_tab_key(key),
            final(self).inputs_wf(),
    {
        match key.code {
            Key::Up => self.log_scroll_up(),
            Key::Down => self.log_scroll_down(),
            Key::Char('c') => {
                self.log_entries.clear();
                self.log_scroll_position = 0;
            },
            _ => {},
        }
    }

    fn bottom_key(&mut self, key: KeyPress) -> (r: Option<Effect>)
        requires
            old(self).wf(),
            old(self).selected_bottom_tab == SelectedBottomTab::Queue ==> old(self)@.queue_key_safe(key.code),
        ensures
            final(self)@ == old(self)@.bottom_key(key).0,
            effect_view(r) == old(self)@.bottom_key(key).1,
            final(self).inputs_wf(),
    {
        self.bottom_common_key(key);
        match self.selected_bottom_tab {
            SelectedBottomTab::Connection => self.connection_tab_key(key),
            SelectedBottomTab::Queue => self.queue_tab_key(key),
            SelectedBottomTab::Log => {
                self.log_tab_key(key);
                None
            },
        }
    }

    fn help_key(&mut self, key: KeyPress)
        requires
            old(self).inputs_wf(),
        ensures
            final(self)@ == old(self)@.help_key(key),
            final(self).inputs_wf(),
    {
        match key.code {
            Key::Esc => self.exit = true,
            Key::Char('?') => self.app_mode = AppMode::Main,
            Key::Tab => {
                self.help_menu_page = match self.help_menu_page {
                    0 => 1,
                    _ => 0,
                }
            },
            _ => {},
        }
    }
}

impl App {
    // ----- the connection popup -----

    fn field_backspace(&mut self) -> (done: bool)
        requires
            old(self)@.wf(),
            old(self).inputs_wf(),
        ensures
            match old(self)@.field(old(self)@.connecting_popup_field).backspace() {
                Some(n) => done && final(self)@ == old(self)@.with_field(
                    old(self)@.connecting_popup_field,
                    n,
                ),
                None => !done && final(self)@ == old(self)@,
            },
            final(self).inputs_wf(),
    {
        match self.connecting_popup_field {
            ConnectingField::Address => self.address_input.backspace(),
            ConnectingField::Port => self.port_input.backspace(),
            ConnectingField::SerialPort => self.serial_port_input.backspace(),
            ConnectingField::BaudRate => self.baud_rate_input.backspace(),
            ConnectingField::SlaveId => self.slave_id_input.backspace(),
        }
    }

    fn field_delete(&mut self) -> (done: bool)
        requires
            old(self)@.wf(),
            old(self).inputs_wf(),
        ensures
            match old(self)@.field(old(self)@.connecting_popup_field).delete() {
                Some(n) => done && final(self)@ == old(self)@.with_field(
                    old(self)@.connecting_popup_field,
                    n,
                ),
                None => !done && final(self)@ == old(self)@,
            },
            final(self).inputs_wf(),
    {
        match self.connecting_popup_field {
            ConnectingField::Address => self.address_input.delete(),
            ConnectingField::Port => self.port_input.delete(),
            ConnectingField::SerialPort => self.serial_port_input.delete(),
            ConnectingField::BaudRate => self.baud_rate_input.delete(),
            ConnectingField::SlaveId => self.slave_id_input.delete(),
        }
    }

    fn field_type(&mut self, c: char) -> (done: bool)
        requires
            old(self)@.wf(),
            old(self).inputs_wf(),
        ensures
            match old(self)@.field(old(self)@.connecting_popup_field).typed(
                class_of(old(self)@.connecting_popup_field),
                c,
            ) {
                Some(n) => done && final(self)@ == old(self)@.with_field(
                    old(self)@.connecting_popup_field,
                    n,
                ),
                None => !done && final(self)@ == old(self)@,
            },
            final(self).inputs_wf(),
    {
        match self.connecting_popup_field {
            ConnectingField::Address => self.address_input.type_char(c),
            ConnectingField::Port => self.port_input.type_char(c),
            ConnectingField::SerialPort => self.serial_port_input.type_char(c),
            ConnectingField::BaudRate => self.baud_rate_input.type_char(c),
            ConnectingField::SlaveId => self.slave_id_input.type_char(c),
        }
    }

    fn field_left(&mut self)
        requires
            old(self)@.wf(),
            old(self).inputs_wf(),
        ensures
            final(self)@ == old(self)@.with_field(
                old(self)@.connecting_popup_field,
                old(self)@.field(old(self)@.connecting_popup_field).left(),
            ),
            final(self).inputs_wf(),
    {
        match self.connecting_popup_field {
            ConnectingField::Address => self.address_input.left(),
            ConnectingField::Port => self.port_input.left(),
            ConnectingField::SerialPort => self.serial_port_input.left(),
            ConnectingField::BaudRate => self.baud_rate_input.left(),
            ConnectingField::SlaveId => self.slave_id_input.left(),
        }
    }

    fn field_right(&mut self)
        requires
            old(self)@.wf(),
            old(self).inputs_wf(),
        ensures
            final(self)@ == old(self)@.with_field(
                old(self)@.connecting_popup_field,
                old(self)@.field(old(self)@.connecting_popup_field).right(),
            ),
            final(self).inputs_wf(),
    {
        match self.connecting_popup_field {
            ConnectingField::Address => self.address_input.right(),
            ConnectingField::Port => self.port_input.right(),
            ConnectingField::SerialPort => self.serial_port_input.right(),
            ConnectingField::BaudRate => self.baud_rate_input.right(),
            ConnectingField::SlaveId => self.slave_id_input.right(),
        }
    }

    fn tcp_enter(&self) -> (r: Option<Effect>)
        requires
            self@.wf(),
            self.inputs_wf(),
        ensures
            effect_view(r) == self@.tcp_enter().1,
    {
        if self.address_input.len() < 2 || self.port_input.len() < 2 {
            Some(Effect::Beep)
        } else {
            let address = self.address_input.text();
            let port = self.port_input.text();
            Some(Effect::ConnectTcp { address, port })
        }
    }

    fn rtu_enter(&mut self) -> (r: Option<Effect>)
        requires
            old(self).wf(),
        ensures
            final(self)@ == old(self)@.rtu_enter().0,
            effect_view(r) == old(self)@.rtu_enter().1,
            final(self).inputs_wf(),
    {
        let port = self.serial_port_input.text();
        let baud_text = self.baud_rate_input.text();
        let slave_text = self.slave_id_input.text();
        let baud_rate = parse_decimal(&baud_text, BAUD_RATE_MAX);
        let slave_id = parse_decimal(&slave_text, SLAVE_ID_MAX);
        match (port.len() == 0, baud_rate, slave_id) {
            (false, Some(baud_rate), Some(slave_id)) => {
                self.app_mode = AppMode::Main;
                self.serial_port_input.reset();
                self.baud_rate_input.reset();
                self.slave_id_input.reset();
                self.connecting_popup_field = ConnectingField::SerialPort;
                let slave_id: u8 = slave_id as u8;
                Some(Effect::ConnectRtu { port, baud_rate, slave_id })
            },
            _ => Some(Effect::Beep),
        }
    }

    fn connection_popup_key(&mut self, key: KeyPress) -> (r: Option<Effect>)
        requires
            old(self).wf(),
        ensures
            final(self)@ == old(self)@.connection_popup_key(key).0,
            effect_view(r) == old(self)@.connection_popup_key(key).1,
            final(self).inputs_wf(),
    {
        match key.code {
            Key::Esc => {
                self.exit = true;
                None
            },
            Key::Backspace => {
                if self.field_backspace() {
                    None
                } else {
                    Some(Effect::Beep)
                }
            },
            Key::Enter => match self.connect_type {
                ConnectType::Tcp => self.tcp_enter(),
                ConnectType::Rtu => self.rtu_enter(),
            },
            Key::Left => {
                self.field_left();
                None
            },
            Key::Right => {
                self.field_right();
                None
            },
            Key::Up | Key::Down | Key::Tab => {
                self.connecting_popup_field = match self.connect_type {
                    ConnectType::Tcp => match self.connecting_popup_field {
                        ConnectingField::Address => ConnectingField::Port,
                        _ => ConnectingField::Address,
                    },
                    ConnectType::Rtu => match self.connecting_popup_field {
                        ConnectingField::SerialPort => ConnectingField::BaudRate,
                        ConnectingField::BaudRate => ConnectingField::SlaveId,
                        _ => ConnectingField::SerialPort,
                    },
                };
                None
            },
            Key::Delete => {
                if self.field_delete() {
                    None
                } else {
                    Some(Effect::Beep)
                }
            },
            Key::Char(c) => {
                if self.field_type(c) {
                    None
                } else {
                    Some(Effect::Beep)
                }
            },
            Key::F(1) => {
                if let ConnectType::Rtu = self.connect_type {
                    self.connect_type = ConnectType::Tcp;
                    self.connecting_popup_field = ConnectingField::Address;
                }
                None
            },
            Key::F(2) => {
                if let ConnectType::Tcp = self.connect_type {
                    self.connect_type = ConnectType::Rtu;
                    self.connecting_popup_field = ConnectingField::SerialPort;
                }
                None
            },
            _ => None,
        }
    }

    /// What follows Enter on the TCP form once the driver has tried to read
    /// its `address:port` text as a socket address: on success the form is
    /// cleared and closed; otherwise nothing changes and the terminal beeps.
    pub fn finish_tcp_connect(&mut self, parsed: bool) -> (beep: bool)
        requires
            old(self).wf(),
        ensures
            final(self)@ == (if parsed {
                old(self)@.tcp_accepted()
            } else {
                old(self)@
            }),
            beep == !parsed,
            final(self).wf(),
    {
        if !parsed {
            return true;
        }
        self.app_mode = AppMode::Main;
        self.address_input.reset();
        self.port_input.reset();
        self.connecting_popup_field = ConnectingField::Address;
        proof {
            lemma_empty_field_wf(CharClass::Address);
            lemma_empty_field_wf(CharClass::Digit);
        }
        false
    }

    // ----- the value and address popups -----

    fn edit_popup_key(&mut self, key: KeyPress) -> (r: Option<Effect>)
        requires
            old(self).wf(),
        ensures
            final(self)@ == old(self)@.edit_popup_key(key).0,
            effect_view(r) == old(self)@.edit_popup_key(key).1,
            final(self).inputs_wf(),
    {
        match key.code {
            Key::Esc => {
                self.edit_popup_input.reset();
                self.app_mode = AppMode::Main;
                None
            },
            Key::Backspace => {
                if self.edit_popup_input.backspace() {
                    None
                } else {
                    Some(Effect::Beep)
                }
            },
            Key::Enter => match parse_decimal(self.edit_popup_input.chars(), u32::MAX) {
                Some(new_value) => {
                    if new_value > 65535 {
                        Some(Effect::Beep)
                    } else {
                        let table = self.selected_top_tab;
                        let content = queued_content_for(table, new_value as u16);
                        self.edit_popup_input.reset();
                        self.app_mode = AppMode::Main;
                        Some(Effect::Table { table, op: TableOp::QueueCurrentCell(content) })
                    }
                },
                None => Some(Effect::Beep),
            },
            Key::Char(c) => {
                if '0' <= c && c <= '9' && self.edit_popup_input.push_within(
                    c,
                    SHORT_NUMBER_LIMIT,
                ) {
                    None
                } else {
                    Some(Effect::Beep)
                }
            },
            _ => None,
        }
    }

    fn goto_popup_key(&mut self, key: KeyPress) -> (r: Option<Effect>)
        requires
            old(self).wf(),
        ensures
            final(self)@ == old(self)@.goto_popup_key(key).0,
            effect_view(r) == old(self)@.goto_popup_key(key).1,
            final(self).inputs_wf(),
    {
        match key.code {
            Key::Esc => {
                self.goto_popup_input.reset();
                self.app_mode = AppMode::Main;
                None
            },
            Key::Backspace => {
                if self.goto_popup_input.backspace() {
                    None
                } else {
                    Some(Effect::Beep)
                }
            },
            Key::Enter => match parse_decimal(self.goto_popup_input.chars(), u32::MAX) {
                Some(new_value) => {
                    if !(1 <= new_value && new_value <= 65535) {
                        Some(Effect::Beep)
                    } else {
                        let table = self.selected_top_tab;
                        let address = (new_value - 1) as u16;
                        self.goto_popup_input.reset();
                        self.app_mode = AppMode::Main;
                        Some(Effect::Table { table, op: TableOp::GoToCell(address) })
                    }
                },
                None => Some(Effect::Beep),
            },
            Key::Char(c) => {
                if '0' <= c && c <= '9' && self.goto_popup_input.push_within(
                    c,
                    SHORT_NUMBER_LIMIT,
                ) {
                    None
                } else {
                    Some(Effect::Beep)
                }
            },
            _ => None,
        }
    }

    // ----- the macro popup -----

    /// Types a character into the macro file name, given whether
    /// `char::is_alphanumeric` holds of it: letters and digits of any script,
    /// `_` and `-` are taken while the name is shorter than 50 characters;
    /// anything else beeps.
    pub fn type_macro_char(&mut self, c: char, alphanumeric: bool) -> (r: Option<Effect>)
        requires
            old(self).wf(),
            alphanumeric == unicode_alphanumeric(c),
        ensures
            final(self)@ == old(self)@.macro_char(c, alphanumeric).0,
            effect_view(r) == old(self)@.macro_char(c, alphanumeric).1,
            final(self).wf(),
    {
        if (alphanumeric || c == '_' || c == '-') && self.macro_popup_input.push_within(
            c,
            FILE_NAME_LIMIT,
        ) {
            None
        } else {
            Some(Effect::Beep)
        }
    }

    fn macro_popup_key(&mut self, m: SaveMacroMode, key: KeyPress) -> (r: Option<Effect>)
        requires
            old(self).wf(),
        ensures
            final(self)@ == old(self)@.macro_popup_key(m, key).0,
            effect_view(r) == old(self)@.macro_popup_key(m, key).1,
            final(self).inputs_wf(),
    {
        match m {
            SaveMacroMode::Main => match key.code {
                Key::Esc => {
                    self.macro_popup_input.reset();
                    self.app_mode = AppMode::Main;
                    None
                },
                Key::Backspace => {
                    if self.macro_popup_input.backspace() {
                        None
                    } else {
                        Some(Effect::Beep)
                    }
                },
                Key::Enter => Some(
                    Effect::SaveMacro { file_name: self.macro_popup_input.to_vec(), overwrite: false },
                ),
                Key::Char(c) => {
                    let alphanumeric = char_is_alphanumeric(c);
                    self.type_macro_char(c, alphanumeric)
                },
                _ => None,
            },
            SaveMacroMode::OverwriteWarning => match key.code {
                Key::Esc => {
                    self.macro_popup_input.reset();
                    self.app_mode = AppMode::Main;
                    None
                },
                Key::Char('y') => Some(
                    Effect::SaveMacro { file_name: self.macro_popup_input.to_vec(), overwrite: true },
                ),
                Key::Char('n') => {
                    self.app_mode = AppMode::Popup(PopupType::SaveMacro(SaveMacroMode::Main));
                    None
                },
                _ => None,
            },
            SaveMacroMode::FileSaved => match key.code {
                Key::Enter => {
                    self.app_mode = AppMode::Main;
                    None
                },
                _ => None,
            },
        }
    }

    // ----- all keys -----

    /// Applies a keyboard event to the state and says what the driver must do.
    pub fn on_key(&mut self, key: KeyPress) -> (r: Option<Effect>)
        requires
            old(self).wf(),
            old(self)@.key_allowed(key),
        ensures
            final(self)@ == old(self)@.key_step(key).0,
            effect_view(r) == old(self)@.key_step(key).1,
            final(self).wf(),
    {
        proof {
            lemma_key_step_keeps_wf(self@, key);
        }
        if !key.pressed {
            return None;
        }
        match self.mode_kind() {
            ModeKind::Main => match self.current_focus {
                CurrentFocus::Top => self.top_key(key),
                CurrentFocus::Bottom => self.bottom_key(key),
            },
            ModeKind::Help => {
                self.help_key(key);
                None
            },
            ModeKind::Connection => self.connection_popup_key(key),
            ModeKind::Edit => self.edit_popup_key(key),
            ModeKind::Error => {
                if let Key::Enter = key.code {
                    self.app_mode = AppMode::Main;
                }
                None
            },
            ModeKind::Goto => self.goto_popup_key(key),
            ModeKind::SaveMacro(m) => self.macro_popup_key(m, key),
        }
    }
}

impl AppView {
    /// The state once the link is closed: no status, no address, no serial settings.
    pub open spec fn disconnected(self) -> AppView {
        AppView {
            connection_status: ConnectionStatus::NotConnected,
            current_ip_address: None,
            current_port: None,
            current_serial_port: None,
            current_baud_rate: None,
            current_slave_id: None,
            ..self
        }
    }

    /// The state once a TCP link is opened: an IPv4 peer is remembered, another is not.
    pub open spec fn connected_tcp(self, ipv4: Option<[u8; 4]>, port: u16) -> AppView {
        AppView {
            connection_status: ConnectionStatus::Connected,
            current_ip_address: ipv4,
            current_port: Some(port),
            ..self.disconnected()
        }
    }

    /// The state once a serial link is opened.
    pub open spec fn connected_rtu(self, port: String, baud_rate: u32, slave_id: u8) -> AppView {
        AppView {
            connection_status: ConnectionStatus::Connected,
            current_serial_port: Some(port),
            current_baud_rate: Some(baud_rate),
            current_slave_id: Some(slave_id),
            ..self.disconnected()
        }
    }

    /// The state once the link failed: no status and no TCP peer, and the message shown.
    pub open spec fn connection_failed(self, message: String) -> AppView {
        AppView {
            connection_status: ConnectionStatus::NotConnected,
            current_ip_address: None,
            current_port: None,
            app_mode: AppMode::Popup(PopupType::Error(message)),
            ..self
        }
    }

    /// The log after a new line: the line at the end, the oldest line dropped
    /// beyond the limit, and the view scrolled to the end.
    pub open spec fn logged(self, entry: LogEntry) -> AppView {
        let grown = self.log.push(entry);
        let kept = if grown.len() > MAX_LOG_ENTRIES {
            grown.drop_first()
        } else {
            grown
        };
        AppView { log: kept, log_scroll_position: (kept.len() - 1) as usize, ..self }
    }

    /// The queue rebuilt from the tables, with the selected index pulled back
    /// onto the last item where it fell off the end.
    pub open spec fn queue_refreshed(self, items: Seq<QueueItem>) -> AppView {
        AppView {
            queue: items,
            queue_item_index: if self.queue_item_index >= items.len() && items.len() > 0 {
                (items.len() - 1) as usize
            } else {
                self.queue_item_index
            },
            ..self
        }
    }

    /// What saving the macro leads to, and whether the failure must be reported.
    pub open spec fn macro_saved(self, outcome: MacroSaveOutcome) -> (AppView, bool) {
        let done = AppView {
            macro_input: Seq::empty(),
            app_mode: AppMode::Popup(PopupType::SaveMacro(SaveMacroMode::FileSaved)),
            ..self
        };
        if mode_is_save_macro(self.app_mode, SaveMacroMode::Main) {
            match outcome {
                MacroSaveOutcome::Saved => (done, false),
                MacroSaveOutcome::AlreadyExists => (
                    self.with_mode(
                        AppMode::Popup(PopupType::SaveMacro(SaveMacroMode::OverwriteWarning)),
                    ),
                    false,
                ),
                MacroSaveOutcome::Failed => (self.with_mode(AppMode::Main), true),
            }
        } else if mode_is_save_macro(self.app_mode, SaveMacroMode::OverwriteWarning) {
            match outcome {
                MacroSaveOutcome::Saved => (done, false),
                _ => (self.with_mode(AppMode::Main), true),
            }
        } else {
            (self, false)
        }
    }

    /// The log lines that a view of `height` lines shows, with the scroll
    /// position pulled back so that the last page is full.
    pub open spec fn log_window(self, height: nat) -> (AppView, Option<(usize, usize)>) {
        let total = self.log.len();
        if total == 0 {
            (self, None)
        } else {
            let max_scroll: nat = if total > height {
                (total - height) as nat
            } else {
                0
            };
            let pos: nat = if self.log_scroll_position <= max_scroll {
                self.log_scroll_position as nat
            } else {
                max_scroll
            };
            let end: nat = if pos + height <= total {
                pos + height
            } else {
                total
            };
            (AppView { log_scroll_position: pos as usize, ..self }, Some((pos as usize, end as usize)))
        }
    }
}

impl App {
    // ----- events from the Modbus link and the driver -----

    /// A TCP link was opened to the peer (`None` where it is not IPv4).
    pub fn on_connect_tcp(&mut self, ipv4: Option<[u8; 4]>, port: u16)
        requires
            old(self).wf(),
        ensures
            final(self)@ == old(self)@.connected_tcp(ipv4, port),
            final(self).wf(),
    {
        self.on_disconnect();
        self.connection_status = ConnectionStatus::Connected;
        self.current_ip_address = ipv4;
        self.current_port = Some(port);
        self.current_serial_port = None;
        self.current_baud_rate = None;
        self.current_slave_id = None;
    }

    /// A serial link was opened.
    pub fn on_connect_rtu(&mut self, port: String, baud_rate: u32, slave_id: u8)
        requires
            old(self).wf(),
        ensures
            final(self)@ == old(self)@.connected_rtu(port, baud_rate, slave_id),
            final(self).wf(),
    {
        self.on_disconnect();
        self.connection_status = ConnectionStatus::Connected;
        self.current_serial_port = Some(port);
        self.current_baud_rate = Some(baud_rate);
        self.current_slave_id = Some(slave_id);
        self.current_ip_address = None;
        self.current_port = None;
    }

    /// The link was closed on request.
    pub fn on_disconnect(&mut self)
        requires
            old(self).wf(),
        ensures
            final(self)@ == old(self)@.disconnected(),
            final(self).wf(),
    {
        self.connection_status = ConnectionStatus::NotConnected;
        self.current_ip_address = None;
        self.current_port = None;
        self.current_serial_port = None;
        self.current_baud_rate = None;
        self.current_slave_id = None;
    }

    /// The link could not be opened or was lost.
    pub fn on_connection_error(&mut self, message: String)
        requires
            old(self).wf(),
        ensures
            final(self)@ == old(self)@.connection_failed(message),
            final(self).wf(),
    {
        self.connection_status = ConnectionStatus::NotConnected;
        self.current_ip_address = None;
        self.current_port = None;
        self.app_mode = AppMode::Popup(PopupType::Error(message));
    }

    /// An error to show in the error popup.
    pub fn on_error(&mut self, message: String)
        requires
            old(self).wf(),
        ensures
            final(self)@ == old(self)@.with_mode(AppMode::Popup(PopupType::Error(message))),
            final(self).wf(),
    {
        self.app_mode = AppMode::Popup(PopupType::Error(message));
    }

    /// A new line for the log.
    pub fn on_log_message(&mut self, entry: LogEntry)
        requires
            old(self).wf(),
        ensures
            final(self)@ == old(self)@.logged(entry),
            final(self).wf(),
    {
        self.log_entries.push(entry);
        if self.log_entries.len() > MAX_LOG_ENTRIES {
            self.log_entries.remove(0);
        }
        self.log_scroll_position = self.log_entries.len().saturating_sub(1);
        proof {
            let v = old(self)@.logged(entry);
            assert(self@.log =~= v.log);
        }
    }

    /// Whether a clock tick should read the current page again.
    pub fn refreshes_on_tick(&self) -> (r: bool)
        ensures
            r == self@.tick_refresh,
    {
        self.tick_refresh
    }

    /// Whether changing page should read the new page.
    pub fn refreshes_on_page_change(&self) -> (r: bool)
        ensures
            r == self@.page_refresh,
    {
        self.page_refresh
    }

    /// Rebuilds the queue from the queued cells of each table, in table order.
    pub fn refresh_queue(&mut self, tables: Vec<Vec<QueueItem>>)
        requires
            old(self).wf(),
            forall|t: int, i: int|
                0 <= t < tables@.len() && 0 <= i < tables@[t]@.len() ==> (#[trigger] tables@[t]@[i]).wf(),
        ensures
            final(self)@ == old(self)@.queue_refreshed(concat_all(views_of(tables@))),
            final(self).wf(),
    {
        let ghost all = views_of(tables@);
        proof {
            lemma_concat_all_wf(all);
        }
        self.queue_table_data = concat_tables(tables);
        if self.queue_item_index >= self.queue_table_data.len() && self.queue_table_data.len() > 0 {
            self.queue_item_index = self.queue_table_data.len() - 1;
        }
    }

    /// Takes over the row that the queue table shows as selected.
    pub fn sync_queue_selection(&mut self, selected: Option<usize>)
        requires
            old(self).wf(),
        ensures
            final(self)@ == (AppView { queue_selected: selected, ..old(self)@ }),
            final(self).wf(),
    {
        self.queue_selected = selected;
    }

    /// What saving the macro file led to; returns whether the failure must be reported.
    pub fn finish_macro_save(&mut self, outcome: MacroSaveOutcome) -> (report: bool)
        requires
            old(self).wf(),
        ensures
            final(self)@ == old(self)@.macro_saved(outcome).0,
            report == old(self)@.macro_saved(outcome).1,
            final(self).wf(),
    {
        let saved = match outcome {
            MacroSaveOutcome::Saved => true,
            _ => false,
        };
        match self.mode_kind() {
            ModeKind::SaveMacro(SaveMacroMode::Main) => {
                if saved {
                    self.macro_popup_input.reset();
                    self.app_mode = AppMode::Popup(PopupType::SaveMacro(SaveMacroMode::FileSaved));
                    false
                } else if let MacroSaveOutcome::AlreadyExists = outcome {
                    self.app_mode = AppMode::Popup(
                        PopupType::SaveMacro(SaveMacroMode::OverwriteWarning),
                    );
                    false
                } else {
                    self.app_mode = AppMode::Main;
                    true
                }
            },
            ModeKind::SaveMacro(SaveMacroMode::OverwriteWarning) => {
                if saved {
                    self.macro_popup_input.reset();
                    self.app_mode = AppMode::Popup(PopupType::SaveMacro(SaveMacroMode::FileSaved));
                    false
                } else {
                    self.app_mode = AppMode::Main;
                    true
                }
            },
            _ => false,
        }
    }

    /// The first and the past-the-end log line that a view of `visible_height`
    /// lines shows, pulling the scroll position back so that the last page is
    /// full; `None` where the log is empty.
    pub fn log_window(&mut self, visible_height: usize) -> (r: Option<(usize, usize)>)
        requires
            old(self).wf(),
            visible_height <= u16::MAX,
        ensures
            final(self)@ == old(self)@.log_window(visible_height as nat).0,
            r == old(self)@.log_window(visible_height as nat).1,
            final(self).wf(),
    {
        let total = self.log_entries.len();
        if total == 0 {
            return None;
        }
        let max_scroll = total.saturating_sub(visible_height);
        if self.log_scroll_position > max_scroll {
            self.log_scroll_position = max_scroll;
        }
        let start = self.log_scroll_position;
        let end = if start + visible_height < total {
            start + visible_height
        } else {
            total
        };
        Some((start, end))
    }
}

/// Every item of every table is in one of the four tables, so is every item of their concatenation.
pub proof fn lemma_concat_all_wf(tables: Seq<Seq<QueueItem>>)
    requires
        forall|t: int, i: int|
            0 <= t < tables.len() && 0 <= i < tables[t].len() ==> (#[trigger] tables[t][i]).wf(),
    ensures
        forall|i: int|
            0 <= i < concat_all(tables).len() ==> (#[trigger] concat_all(tables)[i]).wf(),
    decreases tables.len(),
{
    if tables.len() > 0 {
        let front = tables.drop_last();
        assert forall|t: int, i: int|
            0 <= t < front.len() && 0 <= i < front[t].len() implies (#[trigger] front[t][i]).wf() by {
            assert(front[t] == tables[t]);
        }
        lemma_concat_all_wf(front);
        let c = concat_all(tables);
        assert forall|i: int| 0 <= i < c.len() implies (#[trigger] c[i]).wf() by {
            let f = concat_all(front);
            if i < f.len() {
                assert(c[i] == f[i]);
            } else {
                assert(c[i] == tables.last()[i - f.len()]);
                assert(tables[tables.len() - 1][i - f.len()].wf());
            }
        }
    }
}

/// Which kind of link the state describes, for the header and the connection tab.
#[derive(Clone, Copy, Debug, PartialEq, Eq, Structural)]
pub enum LinkSummary {
    Tcp,
    Rtu,
    NotConnected,
}

impl App {
    /// The read of the page that holds the table cursor: `rows * cols` cells
    /// (as a 16-bit count) from the first address of that page; `None` where no
    /// link is up.
    pub fn read_page_command(&self, table_address: u16, rows: usize, cols: usize) -> (r: Option<
        ModbusCommandQueue,
    >)
        requires
            rows * cols <= usize::MAX,
            self@.connected() ==> ((rows * cols) as u16) > 0,
        ensures
            r is None <==> !self@.connected(),
            r matches Some(q) ==> q matches ModbusCommandQueue::Read(cmds) && cmds@ == seq![
                (
                    self@.selected_top_tab,
                    (table_address / ((rows * cols) as u16) * ((rows * cols) as u16)) as u16,
                    (rows * cols) as u16,
                ),
            ],
    {
        let amount = (rows * cols) as u16;
        if self.is_connected() {
            let start = page_start(table_address, amount);
            let mut command: Vec<ModbusReadCommand> = Vec::new();
            command.push((self.selected_top_tab, start, amount));
            Some(ModbusCommandQueue::Read(command))
        } else {
            None
        }
    }

    /// The link as the header names it: a TCP peer, else a serial port with its slave id.
    pub fn header_link(&self) -> (r: LinkSummary)
        ensures
            r == (if self@.current_ip_address is Some && self@.current_port is Some {
                LinkSummary::Tcp
            } else if self@.current_serial_port is Some && self@.current_slave_id is Some {
                LinkSummary::Rtu
            } else {
                LinkSummary::NotConnected
            }),
    {
        match (&self.current_ip_address, &self.current_port, &self.current_serial_port, &self.current_slave_id) {
            (Some(_), Some(_), _, _) => LinkSummary::Tcp,
            (_, _, Some(_), Some(_)) => LinkSummary::Rtu,
            _ => LinkSummary::NotConnected,
        }
    }

    /// The link as the connection tab describes it: a TCP peer, else a serial
    /// port with its baud rate and slave id.
    pub fn connection_tab_link(&self) -> (r: LinkSummary)
        ensures
            r == (if self@.current_ip_address is Some && self@.current_port is Some {
                LinkSummary::Tcp
            } else if self@.current_serial_port is Some && self@.current_baud_rate is Some
                && self@.current_slave_id is Some {
                LinkSummary::Rtu
            } else {
                LinkSummary::NotConnected
            }),
    {
        match (
            &self.current_ip_address,
            &self.current_port,
            &self.current_serial_port,
            &self.current_baud_rate,
            &self.current_slave_id,
        ) {
            (Some(_), Some(_), _, _, _) => LinkSummary::Tcp,
            (_, _, Some(_), Some(_), Some(_)) => LinkSummary::Rtu,
            _ => LinkSummary::NotConnected,
        }
    }

    // ----- reading the state -----

    pub fn should_exit(&self) -> (r: bool)
        ensures
            r == self@.exit,
    {
        self.exit
    }

    pub fn connection_status(&self) -> (r: ConnectionStatus)
        ensures
            r == self@.connection_status,
    {
        self.connection_status
    }

    pub fn current_ip_address(&self) -> (r: Option<[u8; 4]>)
        ensures
            r == self@.current_ip_address,
    {
        self.current_ip_address
    }

    pub fn current_port(&self) -> (r: Option<u16>)
        ensures
            r == self@.current_port,
    {
        self.current_port
    }

    pub fn current_serial_port(&self) -> (r: &Option<String>)
        ensures
            *r == self@.current_serial_port,
    {
        &self.current_serial_port
    }

    pub fn current_baud_rate(&self) -> (r: Option<u32>)
        ensures
            r == self@.current_baud_rate,
    {
        self.current_baud_rate
    }

    pub fn current_slave_id(&self) -> (r: Option<u8>)
        ensures
            r == self@.current_slave_id,
    {
        self.current_slave_id
    }

    pub fn selected_connection_button(&self) -> (r: SelectedConnectionButton)
        ensures
            r == self@.selected_connection_button,
    {
        self.selected_connection_button
    }

    pub fn app_mode(&self) -> (r: &AppMode)
        ensures
            *r == self@.app_mode,
    {
        &self.app_mode
    }

    pub fn current_focus(&self) -> (r: CurrentFocus)
        ensures
            r == self@.current_focus,
    {
        self.current_focus
    }

    pub fn selected_top_tab(&self) -> (r: SelectedTopTab)
        ensures
            r == self@.selected_top_tab,
    {
        self.selected_top_tab
    }

    pub fn selected_bottom_tab(&self) -> (r: SelectedBottomTab)
        ensures
            r == self@.selected_bottom_tab,
    {
        self.selected_bottom_tab
    }

    pub fn queue_items(&self) -> (r: &Vec<QueueItem>)
        ensures
            r@ == self@.queue,
    {
        &self.queue_table_data
    }

    pub fn queue_item_index(&self) -> (r: usize)
        ensures
            r == self@.queue_item_index,
    {
        self.queue_item_index
    }

    pub fn queue_selected(&self) -> (r: Option<usize>)
        ensures
            r == self@.queue_selected,
    {
        self.queue_selected
    }

    pub fn log_entries(&self) -> (r: &Vec<LogEntry>)
        ensures
            r@ == self@.log,
    {
        &self.log_entries
    }

    pub fn log_scroll_position(&self) -> (r: usize)
        ensures
            r == self@.log_scroll_position,
    {
        self.log_scroll_position
    }

    pub fn connect_type(&self) -> (r: ConnectType)
        ensures
            r == self@.connect_type,
    {
        self.connect_type
    }

    pub fn connecting_popup_field(&self) -> (r: ConnectingField)
        ensures
            r == self@.connecting_popup_field,
    {
        self.connecting_popup_field
    }

    /// The connection field of the popup.
    pub fn field(&self, f: ConnectingField) -> (r: &FieldInput)
        ensures
            r@ == self@.field(f),
            self.wf() ==> r.wf() && r.char_class() == class_of(f),
    {
        match f {
            ConnectingField::Address => &self.address_input,
            ConnectingField::Port => &self.port_input,
            ConnectingField::SerialPort => &self.serial_port_input,
            ConnectingField::BaudRate => &self.baud_rate_input,
            ConnectingField::SlaveId => &self.slave_id_input,
        }
    }

    /// The field of the popup; its cursor stands after its last character.
    pub fn edit_input(&self) -> (r: &ShortInput)
        ensures
            r@ == self@.edit_input,
            self.wf() ==> r.wf(),
    {
        &self.edit_popup_input
    }

    /// The field of the popup; its cursor stands after its last character.
    pub fn goto_input(&self) -> (r: &ShortInput)
        ensures
            r@ == self@.goto_input,
            self.wf() ==> r.wf(),
    {
        &self.goto_popup_input
    }

    /// The field of the popup; its cursor stands after its last character.
    pub fn macro_input(&self) -> (r: &ShortInput)
        ensures
            r@ == self@.macro_input,
            self.wf() ==> r.wf(),
    {
        &self.macro_popup_input
    }

    pub fn page_refresh(&self) -> (r: bool)
        ensures
            r == self@.page_refresh,
    {
        self.page_refresh
    }

    pub fn tick_refresh(&self) -> (r: bool)
        ensures
            r == self@.tick_refresh,
    {
        self.tick_refresh
    }

    pub fn help_menu_page(&self) -> (r: u8)
        ensures
            r == self@.help_menu_page,
    {
        self.help_menu_page
    }
}

impl App {
    /// Lists the queue by table and then by address, as the queue tab shows it;
    /// items of the same cell keep their order.
    pub fn sort_queue(&mut self)
        requires
            old(self).wf(),
        ensures
            stably_sorted(final(self)@.queue, old(self)@.queue),
            final(self)@ == (AppView { queue: final(self)@.queue, ..old(self)@ }),
            final(self).wf(),
    {
        let sorted = sort_queue_items(&self.queue_table_data);
        proof {
            lemma_sorted_items_wf(sorted@, self@.queue);
        }
        self.queue_table_data = sorted;
    }
}

impl App {
    /// Whether the key is one that `on_key` accepts in this state (see `AppView::key_allowed`).
    pub fn key_allowed(&self, key: KeyPress) -> (r: bool)
        ensures
            r == self@.key_allowed(key),
    {
        if !key.pressed {
            return true;
        }
        match self.mode_kind() {
            ModeKind::Main => {
                let in_queue = match (self.current_focus, self.selected_bottom_tab) {
                    (CurrentFocus::Bottom, SelectedBottomTab::Queue) => true,
                    _ => false,
                };
                if !in_queue {
                    return true;
                }
                match key.code {
                    Key::Up => match self.queue_selected {
                        Some(0) => self.queue_table_data.len() > 0,
                        _ => true,
                    },
                    Key::Down => self.queue_selected.is_none() || self.queue_table_data.len() > 0,
                    Key::Char('g') | Key::Char('r') => self.queue_table_data.len() == 0
                        || self.queue_item_index < self.queue_table_data.len(),
                    _ => true,
                }
            },
            _ => true,
        }
    }
}

/// The queue that the four tables hold: the queued cells of each table, in
/// tab order and, within a table, in address order.
pub open spec fn queued_in(tables: Seq<TableView>) -> Seq<QueueItem> {
    concat_all(Seq::new(tables.len(), |i: int| tables[i].queued_items(i as usize)))
}

/// The table operations that change a cell, after which the queue is rebuilt.
pub open spec fn changes_cells(op: TableOp) -> bool {
    op is QueueCurrentCell || op is RevertCurrentCell || op is ToggleCurrentCoil
}

impl App {
    /// The client's invariant holds of its view.
    pub proof fn lemma_wf_view(&self)
        requires
            self.wf(),
        ensures
            self@.wf(),
    {
    }

    /// Rebuilds the queue tab from the queued cells of the tables.
    pub fn refresh_queue_from(&mut self, tables: &TableSet)
        requires
            old(self).wf(),
            tables.wf(),
        ensures
            final(self)@ == old(self)@.queue_refreshed(queued_in(tables@)),
            final(self)@.queue == queued_in(tables@),
            final(self).wf(),
    {
        let items = tables.queue_items();
        proof {
            assert(views_of(items@) =~= Seq::new(
                tables@.len(),
                |i: int| tables@[i].queued_items(i as usize),
            ));
        }
        self.refresh_queue(items);
    }

    /// Carries out a table effect of a key: the operation on the table of the
    /// tab and, when it changed a cell, a queue rebuilt from the tables. Returns
    /// whether a move by rows or pages left the page. A queue that listed the
    /// queued cells of the tables still does.
    pub fn apply_table_op(&mut self, tables: &mut TableSet, table: SelectedTopTab, op: TableOp) -> (page_changed: bool)
        requires
            old(self).wf(),
            old(tables).wf(),
        ensures
            final(tables).wf(),
            final(self).wf(),
            final(tables)@ == old(tables)@.update(
                table.position() as int,
                old(tables)@[table.position() as int].after(op),
            ),
            page_changed == (TableView::moves_vertically(op) && final(tables)@[table.position() as int].page_offset
                != old(tables)@[table.position() as int].page_offset),
            changes_cells(op) ==> final(self)@ == old(self)@.queue_refreshed(queued_in(final(tables)@)),
            !changes_cells(op) ==> final(self)@ == old(self)@,
            old(self)@.queue == queued_in(old(tables)@) ==> final(self)@.queue == queued_in(final(tables)@),
    {
        let ghost before = tables@;
        let page_changed = tables.apply_op(table, op);
        match op {
            TableOp::QueueCurrentCell(_) | TableOp::RevertCurrentCell | TableOp::ToggleCurrentCoil => {
                self.refresh_queue_from(tables);
            },
            _ => {
                proof {
                    let i = table.position() as int;
                    assert(tables@[i].cells == before[i].cells);
                    assert(Seq::new(tables@.len(), |k: int| tables@[k].queued_items(k as usize)) =~= Seq::new(
                        before.len(),
                        |k: int| before[k].queued_items(k as usize),
                    ));
                }
            },
        }
        page_changed
    }

    /// Drops what is queued for one cell, as `r` in the queue tab asks, and
    /// rebuilds the queue from the tables.
    pub fn revert_queue_item(&mut self, tables: &mut TableSet, table_index: usize, address: u16)
        requires
            old(self).wf(),
            old(tables).wf(),
            table_index < 4,
        ensures
            final(tables).wf(),
            final(self).wf(),
            final(tables)@ == old(tables)@.update(
                table_index as int,
                old(tables)@[table_index as int].with_cell(
                    address,
                    old(tables)@[table_index as int].cells[address as int].reverted(),
                ),
            ),
            final(self)@ == old(self)@.queue_refreshed(queued_in(final(tables)@)),
            final(self)@.queue == queued_in(final(tables)@),
    {
        tables.revert_item(table_index, address);
        self.refresh_queue_from(tables);
    }

    /// Takes over the contents the device reported and rebuilds the queue.
    pub fn take_reads(&mut self, tables: &mut TableSet, updates: &Vec<ModbusWriteCommand>)
        requires
            old(self).wf(),
            old(tables).wf(),
        ensures
            final(tables).wf(),
            final(self).wf(),
            final(tables)@ == crate::table::after_reads(old(tables)@, updates@),
            final(self)@ == old(self)@.queue_refreshed(queued_in(final(tables)@)),
            final(self)@.queue == queued_in(final(tables)@),
    {
        tables.set_cells(updates);
        self.refresh_queue_from(tables);
    }

    /// The queued contents were written: every queued cell takes its queued
    /// content, and the queue is rebuilt.
    pub fn take_written(&mut self, tables: &mut TableSet)
        requires
            old(self).wf(),
            old(tables).wf(),
        ensures
            final(tables).wf(),
            final(self).wf(),
            final(tables)@.len() == old(tables)@.len(),
            forall|i: int| 0 <= i < 4 ==> #[trigger] final(tables)@[i] == old(tables)@[i].all_applied(),
            final(self)@ == old(self)@.queue_refreshed(queued_in(final(tables)@)),
            final(self)@.queue == queued_in(final(tables)@),
    {
        tables.apply_queued();
        self.refresh_queue_from(tables);
    }
}

} // verus!
