use magic_modbus::app::{socket_address_text, App, LinkSummary};
use magic_modbus::clock::make_log_entry;
use magic_modbus::enums::{
    AppMode, CellType, ConnectType, ConnectingField, ConnectionStatus, CurrentFocus, LogDirection,
    ModbusCommandQueue, PopupType, SaveMacroMode, SelectedBottomTab, SelectedConnectionButton,
    SelectedTopTab,
};
use magic_modbus::event::{Effect, Key, KeyPress, MacroSaveOutcome, Notice, TableOp};
use magic_modbus::queue::QueueItem;

fn press(code: Key) -> KeyPress {
    KeyPress { code, shift: false, pressed: true }
}

fn ch(c: char) -> KeyPress {
    press(Key::Char(c))
}

fn type_text(app: &mut App, text: &str) {
    for c in text.chars() {
        assert!(app.on_key(ch(c)).is_none(), "typing {c:?} was refused");
    }
}

fn is_beep(e: &Option<Effect>) -> bool {
    matches!(e, Some(Effect::Beep))
}

fn connected_tcp() -> App {
    let mut app = App::new();
    app.on_connect_tcp(Some([192, 168, 0, 10]), 502);
    app
}

fn item(table_index: usize, address: u16) -> QueueItem {
    QueueItem {
        table_index,
        address,
        table_type: SelectedTopTab::from_repr(table_index).unwrap(),
        original_content: CellType::Word(0),
        queued_content: CellType::Word(1),
    }
}

#[test]
fn fresh_state() {
    let app = App::new();
    assert!(matches!(app.app_mode(), AppMode::Main));
    assert_eq!(app.current_focus(), CurrentFocus::Top);
    assert_eq!(app.selected_top_tab(), SelectedTopTab::Coils);
    assert_eq!(app.selected_bottom_tab(), SelectedBottomTab::Connection);
    assert_eq!(app.connection_status(), ConnectionStatus::NotConnected);
    assert_eq!(app.connect_type(), ConnectType::Tcp);
    assert_eq!(app.connecting_popup_field(), ConnectingField::Address);
    assert_eq!(app.field(ConnectingField::Address).chars(), &vec![' ']);
    assert!(!app.should_exit());
    assert_eq!(app.header_link(), LinkSummary::NotConnected);
}

#[test]
fn released_keys_are_ignored() {
    let mut app = App::new();
    let r = app.on_key(KeyPress { code: Key::Esc, shift: false, pressed: false });
    assert!(r.is_none());
    assert!(!app.should_exit());
}

#[test]
fn escape_quits_from_main_view() {
    let mut app = App::new();
    app.on_key(press(Key::Esc));
    assert!(app.should_exit());
}

#[test]
fn tab_twice_returns_focus() {
    let mut app = App::new();
    app.on_key(press(Key::Tab));
    assert_eq!(app.current_focus(), CurrentFocus::Bottom);
    app.on_key(press(Key::Tab));
    assert_eq!(app.current_focus(), CurrentFocus::Top);
}

#[test]
fn help_toggles_and_pages() {
    let mut app = App::new();
    app.on_key(ch('?'));
    assert!(matches!(app.app_mode(), AppMode::Help));
    app.on_key(press(Key::Tab));
    assert_eq!(app.help_menu_page(), 1);
    app.on_key(press(Key::Tab));
    assert_eq!(app.help_menu_page(), 0);
    app.on_key(ch('?'));
    assert!(matches!(app.app_mode(), AppMode::Main));
}

#[test]
fn top_tabs_follow_q_and_e() {
    let mut app = App::new();
    app.on_key(ch('e'));
    app.on_key(ch('e'));
    assert_eq!(app.selected_top_tab(), SelectedTopTab::InputRegisters);
    app.on_key(ch('q'));
    assert_eq!(app.selected_top_tab(), SelectedTopTab::DiscreteInputs);
}

#[test]
fn table_navigation_effects() {
    let mut app = App::new();
    let r = app.on_key(press(Key::Up));
    assert!(matches!(r, Some(Effect::Table { table: SelectedTopTab::Coils, op: TableOp::MoveUp })));
    let r = app.on_key(KeyPress { code: Key::Up, shift: true, pressed: true });
    assert!(matches!(r, Some(Effect::Table { op: TableOp::PageUp, .. })));
    let r = app.on_key(KeyPress { code: Key::Char('s'), shift: true, pressed: true });
    assert!(matches!(r, Some(Effect::Table { op: TableOp::PageDown, .. })));
    let r = app.on_key(ch('d'));
    assert!(matches!(r, Some(Effect::Table { op: TableOp::MoveRight, .. })));
}

#[test]
fn reading_needs_a_link() {
    let mut app = App::new();
    assert!(matches!(app.on_key(ch('r')), Some(Effect::Report(Notice::ConnectFirst))));
    assert!(matches!(app.on_key(press(Key::Enter)), Some(Effect::Report(Notice::ConnectFirst))));
    assert!(matches!(app.on_key(ch(' ')), Some(Effect::Report(Notice::ConnectFirst))));
    assert!(app.on_key(ch('u')).is_none());
    let mut app = connected_tcp();
    assert!(matches!(app.on_key(ch('r')), Some(Effect::ReadCurrentPage)));
    assert!(matches!(app.on_key(press(Key::Enter)), Some(Effect::ApplyQueued)));
    assert!(matches!(
        app.on_key(ch(' ')),
        Some(Effect::Table { table: SelectedTopTab::Coils, op: TableOp::ToggleCurrentCoil })
    ));
}

#[test]
fn refresh_toggles() {
    let mut app = App::new();
    app.on_key(ch('R'));
    app.on_key(ch('T'));
    assert!(app.page_refresh());
    assert!(app.refreshes_on_tick());
    app.on_key(ch('R'));
    assert!(!app.refreshes_on_page_change());
}

#[test]
fn tcp_connection_form() {
    let mut app = App::new();
    app.on_key(press(Key::Tab));
    app.on_key(press(Key::Enter));
    assert!(matches!(app.app_mode(), AppMode::Popup(PopupType::Connection)));
    assert!(is_beep(&app.on_key(press(Key::Enter))));
    type_text(&mut app, "127.0.0.1");
    assert!(is_beep(&app.on_key(ch('z'))));
    app.on_key(press(Key::Tab));
    assert_eq!(app.connecting_popup_field(), ConnectingField::Port);
    assert!(is_beep(&app.on_key(ch('x'))));
    type_text(&mut app, "502");
    match app.on_key(press(Key::Enter)) {
        Some(Effect::ConnectTcp { address, port }) => {
            assert_eq!(address.iter().collect::<String>(), "127.0.0.1");
            assert_eq!(port.iter().collect::<String>(), "502");
        }
        _ => panic!("expected a TCP connection request"),
    }
    assert!(!app.finish_tcp_connect(true));
    assert!(matches!(app.app_mode(), AppMode::Main));
    assert_eq!(app.field(ConnectingField::Address).chars(), &vec![' ']);
    assert_eq!(app.field(ConnectingField::Port).chars(), &vec![' ']);
    assert_eq!(app.connecting_popup_field(), ConnectingField::Address);
}

#[test]
fn rtu_connection_form() {
    let mut app = App::new();
    app.on_key(press(Key::Tab));
    app.on_key(press(Key::Enter));
    app.on_key(press(Key::F(2)));
    assert_eq!(app.connect_type(), ConnectType::Rtu);
    assert_eq!(app.connecting_popup_field(), ConnectingField::SerialPort);
    type_text(&mut app, "/dev/ttyUSB0");
    app.on_key(press(Key::Down));
    type_text(&mut app, "9600");
    app.on_key(press(Key::Down));
    type_text(&mut app, "256");
    assert!(is_beep(&app.on_key(press(Key::Enter))), "a slave id above 255 is refused");
    app.on_key(press(Key::Backspace));
    type_text(&mut app, "7");
    assert!(is_beep(&app.on_key(press(Key::Enter))), "257 is refused too");
    for _ in 0..3 {
        assert!(app.on_key(press(Key::Backspace)).is_none());
    }
    assert!(is_beep(&app.on_key(press(Key::Backspace))));
    type_text(&mut app, "25");
    match app.on_key(press(Key::Enter)) {
        Some(Effect::ConnectRtu { port, baud_rate, slave_id }) => {
            assert_eq!(port.iter().collect::<String>(), "/dev/ttyUSB0");
            assert_eq!(baud_rate, 9600);
            assert_eq!(slave_id, 25);
        }
        _ => panic!("expected a serial connection request"),
    }
    assert!(matches!(app.app_mode(), AppMode::Main));
    assert_eq!(app.field(ConnectingField::SlaveId).chars(), &vec![' ']);
    app.on_connect_rtu(String::from("/dev/ttyUSB0"), 9600, 25);
    assert_eq!(app.header_link(), LinkSummary::Rtu);
    assert_eq!(app.connection_tab_link(), LinkSummary::Rtu);
    assert_eq!(app.current_ip_address(), None);
}

#[test]
fn connection_popup_cursor_editing() {
    let mut app = App::new();
    app.on_key(press(Key::Tab));
    app.on_key(press(Key::Enter));
    type_text(&mut app, "10.0.0.1");
    app.on_key(press(Key::Left));
    app.on_key(press(Key::Left));
    assert!(app.on_key(press(Key::Delete)).is_none());
    assert_eq!(app.field(ConnectingField::Address).text().iter().collect::<String>(), "10.0.01");
    app.on_key(press(Key::Right));
    app.on_key(press(Key::Right));
    assert_eq!(app.field(ConnectingField::Address).cursor(), 7);
    app.on_key(press(Key::Right));
    assert_eq!(app.field(ConnectingField::Address).cursor(), 7);
    assert!(is_beep(&app.on_key(press(Key::Delete))));
    app.on_key(press(Key::F(1)));
    assert_eq!(app.connecting_popup_field(), ConnectingField::Address);
    app.on_key(press(Key::Esc));
    assert!(app.should_exit());
}

#[test]
fn connection_buttons() {
    let mut app = App::new();
    app.on_key(press(Key::Tab));
    app.on_key(ch('d'));
    assert_eq!(app.selected_connection_button(), SelectedConnectionButton::Disconnect);
    assert!(matches!(app.on_key(press(Key::Enter)), Some(Effect::Disconnect)));
    app.on_key(press(Key::Left));
    assert_eq!(app.selected_connection_button(), SelectedConnectionButton::NewConnection);
}

#[test]
fn edit_popup_queues_a_register_value() {
    let mut app = connected_tcp();
    for _ in 0..3 {
        app.on_key(ch('e'));
    }
    assert_eq!(app.selected_top_tab(), SelectedTopTab::HoldingRegisters);
    assert!(app.on_key(ch(' ')).is_none());
    assert!(matches!(app.app_mode(), AppMode::Popup(PopupType::Edit)));
    assert!(is_beep(&app.on_key(press(Key::Enter))));
    type_text(&mut app, "65536");
    assert!(is_beep(&app.on_key(ch('1'))), "at most five digits");
    assert!(is_beep(&app.on_key(press(Key::Enter))), "above 65535");
    app.on_key(press(Key::Backspace));
    app.on_key(press(Key::Backspace));
    type_text(&mut app, "35");
    assert!(matches!(
        app.on_key(press(Key::Enter)),
        Some(Effect::Table {
            table: SelectedTopTab::HoldingRegisters,
            op: TableOp::QueueCurrentCell(CellType::Word(65535)),
        })
    ));
    assert!(matches!(app.app_mode(), AppMode::Main));
    assert_eq!(app.edit_input().cursor(), 0);
}

#[test]
fn goto_popup() {
    let mut app = App::new();
    app.on_key(ch('g'));
    assert!(matches!(app.app_mode(), AppMode::Popup(PopupType::Goto)));
    type_text(&mut app, "0");
    assert!(is_beep(&app.on_key(press(Key::Enter))), "addresses start at 1");
    app.on_key(press(Key::Backspace));
    assert!(is_beep(&app.on_key(ch('a'))));
    type_text(&mut app, "100");
    assert!(matches!(
        app.on_key(press(Key::Enter)),
        Some(Effect::Table { table: SelectedTopTab::Coils, op: TableOp::GoToCell(99) })
    ));
    app.on_key(ch('g'));
    type_text(&mut app, "12");
    app.on_key(press(Key::Esc));
    assert!(matches!(app.app_mode(), AppMode::Main));
    assert_eq!(app.goto_input().cursor(), 0);
}

#[test]
fn error_popup_closes_on_enter_only() {
    let mut app = App::new();
    app.on_error(String::from("boom"));
    app.on_key(press(Key::Esc));
    assert!(!app.should_exit());
    assert!(matches!(app.app_mode(), AppMode::Popup(PopupType::Error(m)) if m == "boom"));
    app.on_key(press(Key::Enter));
    assert!(matches!(app.app_mode(), AppMode::Main));
}

#[test]
fn log_keeps_a_thousand_lines() {
    let mut app = App::new();
    for i in 0..1001 {
        app.on_log_message(make_log_entry(LogDirection::Rx, format!("line {i}")));
    }
    assert_eq!(app.log_entries().len(), 1000);
    assert_eq!(app.log_entries()[0].message, "line 1");
    assert_eq!(app.log_entries()[999].message, "line 1000");
    assert_eq!(app.log_scroll_position(), 999);
    let stamp: Vec<char> = app.log_entries()[0].timestamp.chars().collect();
    assert_eq!(stamp.len(), 8);
    assert_eq!((stamp[2], stamp[5]), (':', ':'));
}

#[test]
fn log_scrolling_and_clearing() {
    let mut app = App::new();
    for i in 0..3 {
        app.on_log_message(make_log_entry(LogDirection::Tx, format!("{i}")));
    }
    app.on_key(press(Key::Tab));
    app.on_key(ch('e'));
    app.on_key(ch('e'));
    assert_eq!(app.selected_bottom_tab(), SelectedBottomTab::Log);
    app.on_key(press(Key::Down));
    assert_eq!(app.log_scroll_position(), 2);
    app.on_key(press(Key::Up));
    app.on_key(press(Key::Up));
    app.on_key(press(Key::Up));
    assert_eq!(app.log_scroll_position(), 0);
    app.on_key(press(Key::Down));
    assert_eq!(app.log_scroll_position(), 1);
    assert_eq!(app.log_window(2), Some((1, 3)));
    assert_eq!(app.log_window(10), Some((0, 3)));
    assert_eq!(app.log_scroll_position(), 0);
    app.on_key(ch('c'));
    assert_eq!(app.log_entries().len(), 0);
    assert_eq!(app.log_window(5), None);
}

#[test]
fn queue_navigation_and_actions() {
    let mut app = connected_tcp();
    app.refresh_queue(vec![vec![item(0, 4)], vec![], vec![], vec![item(3, 7), item(3, 9)]]);
    assert_eq!(app.queue_items().len(), 3);
    app.on_key(press(Key::Tab));
    app.on_key(ch('e'));
    assert_eq!(app.selected_bottom_tab(), SelectedBottomTab::Queue);
    app.on_key(press(Key::Down));
    assert_eq!(app.queue_item_index(), 0);
    app.on_key(press(Key::Up));
    assert_eq!(app.queue_item_index(), 2);
    app.on_key(press(Key::Down));
    assert_eq!(app.queue_item_index(), 0);
    app.on_key(press(Key::Up));
    assert!(matches!(
        app.on_key(ch('g')),
        Some(Effect::Table { table: SelectedTopTab::HoldingRegisters, op: TableOp::GoToCell(9) })
    ));
    assert_eq!(app.selected_top_tab(), SelectedTopTab::HoldingRegisters);
    assert!(matches!(
        app.on_key(ch('r')),
        Some(Effect::RevertQueueItem { table_index: 3, address: 9 })
    ));
    app.refresh_queue(vec![vec![item(0, 4)]]);
    assert_eq!(app.queue_item_index(), 0);
    app.on_key(ch('m'));
    assert!(matches!(app.app_mode(), AppMode::Popup(PopupType::SaveMacro(SaveMacroMode::Main))));
}

#[test]
fn saving_a_macro_needs_a_tcp_link_and_a_queue() {
    let mut app = App::new();
    app.on_key(press(Key::Tab));
    app.on_key(ch('e'));
    assert!(matches!(app.on_key(ch('m')), Some(Effect::Report(Notice::ConnectFirstToSave))));
    app.on_connect_rtu(String::from("COM1"), 19200, 1);
    assert!(matches!(app.on_key(ch('m')), Some(Effect::Report(Notice::MacroNeedsTcp))));
    app.on_connect_tcp(Some([10, 0, 0, 2]), 502);
    assert!(matches!(app.on_key(ch('m')), Some(Effect::Report(Notice::QueueEmpty))));
}

#[test]
fn macro_file_name_and_outcomes() {
    let mut app = connected_tcp();
    app.refresh_queue(vec![vec![item(0, 1)]]);
    app.on_key(press(Key::Tab));
    app.on_key(ch('e'));
    app.on_key(ch('m'));
    type_text(&mut app, "plant_a-1");
    assert!(app.on_key(ch('é')).is_none(), "letters of any script are taken");
    assert!(is_beep(&app.on_key(ch('!'))));
    assert!(is_beep(&app.on_key(ch('.'))));
    match app.on_key(press(Key::Enter)) {
        Some(Effect::SaveMacro { file_name, overwrite }) => {
            assert_eq!(file_name.iter().collect::<String>(), "plant_a-1é");
            assert!(!overwrite);
        }
        _ => panic!("expected a save request"),
    }
    assert!(!app.finish_macro_save(MacroSaveOutcome::AlreadyExists));
    assert!(matches!(
        app.app_mode(),
        AppMode::Popup(PopupType::SaveMacro(SaveMacroMode::OverwriteWarning))
    ));
    app.on_key(ch('n'));
    assert!(matches!(app.app_mode(), AppMode::Popup(PopupType::SaveMacro(SaveMacroMode::Main))));
    app.on_key(press(Key::Enter));
    app.finish_macro_save(MacroSaveOutcome::AlreadyExists);
    assert!(matches!(app.on_key(ch('y')), Some(Effect::SaveMacro { overwrite: true, .. })));
    assert!(!app.finish_macro_save(MacroSaveOutcome::Saved));
    assert!(matches!(
        app.app_mode(),
        AppMode::Popup(PopupType::SaveMacro(SaveMacroMode::FileSaved))
    ));
    assert_eq!(app.macro_input().cursor(), 0);
    app.on_key(press(Key::Enter));
    assert!(matches!(app.app_mode(), AppMode::Main));
}

#[test]
fn macro_save_failure_is_reported() {
    let mut app = connected_tcp();
    app.refresh_queue(vec![vec![item(0, 1)]]);
    app.on_key(press(Key::Tab));
    app.on_key(ch('e'));
    app.on_key(ch('m'));
    type_text(&mut app, "x");
    app.on_key(press(Key::Enter));
    assert!(app.finish_macro_save(MacroSaveOutcome::Failed));
    assert!(matches!(app.app_mode(), AppMode::Main));
}

#[test]
fn macro_name_limit() {
    let mut app = connected_tcp();
    app.refresh_queue(vec![vec![item(0, 1)]]);
    app.on_key(press(Key::Tab));
    app.on_key(ch('e'));
    app.on_key(ch('m'));
    for _ in 0..50 {
        assert!(app.on_key(ch('a')).is_none());
    }
    assert!(is_beep(&app.on_key(ch('a'))));
    assert!(app.type_macro_char('b', true).is_some());
}

#[test]
fn link_events() {
    let mut app = connected_tcp();
    assert_eq!(app.connection_status(), ConnectionStatus::Connected);
    assert_eq!(app.current_ip_address(), Some([192, 168, 0, 10]));
    assert_eq!(app.current_port(), Some(502));
    assert_eq!(app.header_link(), LinkSummary::Tcp);
    app.on_connection_error(String::from("Connection Was Lost"));
    assert_eq!(app.connection_status(), ConnectionStatus::NotConnected);
    assert_eq!(app.current_port(), None);
    assert!(matches!(app.app_mode(), AppMode::Popup(PopupType::Error(_))));
    app.on_connect_rtu(String::from("COM3"), 115200, 9);
    app.on_connection_error(String::from("lost"));
    assert_eq!(app.current_serial_port(), &Some(String::from("COM3")), "a failed link keeps the serial port");
    app.on_disconnect();
    assert_eq!(app.current_serial_port(), &None);
    assert_eq!(app.current_baud_rate(), None);
    assert_eq!(app.connection_tab_link(), LinkSummary::NotConnected);
}

#[test]
fn page_reads() {
    let app = App::new();
    assert!(app.read_page_command(37, 4, 16).is_none());
    let mut app = connected_tcp();
    match app.read_page_command(130, 4, 16) {
        Some(ModbusCommandQueue::Read(cmds)) => {
            assert_eq!(cmds, vec![(SelectedTopTab::Coils, 128, 64)])
        }
        _ => panic!("expected a read"),
    }
    app.on_key(ch('e'));
    app.on_key(ch('e'));
    match app.read_page_command(100, 8, 8) {
        Some(ModbusCommandQueue::Read(cmds)) => {
            assert_eq!(cmds, vec![(SelectedTopTab::InputRegisters, 64, 64)])
        }
        _ => panic!("expected a read"),
    }
}

#[test]
fn sorting_the_queue() {
    let mut app = App::new();
    app.refresh_queue(vec![vec![item(3, 2), item(0, 9), item(3, 1), item(0, 3)]]);
    app.sort_queue();
    let order: Vec<(usize, u16)> = app.queue_items().iter().map(|i| (i.table_index, i.address)).collect();
    assert_eq!(order, vec![(0, 3), (0, 9), (3, 1), (3, 2)]);
}

#[test]
fn queue_selection_follows_the_table() {
    let mut app = App::new();
    app.refresh_queue(vec![vec![item(0, 1), item(0, 2)]]);
    app.sync_queue_selection(Some(1));
    assert_eq!(app.queue_selected(), Some(1));
}

#[test]
fn tcp_form_stays_open_when_the_address_does_not_parse() {
    let mut app = App::new();
    app.on_key(press(Key::Tab));
    app.on_key(press(Key::Enter));
    assert!(matches!(app.app_mode(), AppMode::Popup(PopupType::Connection)));
    type_text(&mut app, "999.1.1.1");
    app.on_key(press(Key::Tab));
    type_text(&mut app, "502");
    let text = match app.on_key(press(Key::Enter)) {
        Some(Effect::ConnectTcp { address, port }) => socket_address_text(&address, &port),
        _ => panic!("expected a TCP connection request"),
    };
    assert_eq!(text, "999.1.1.1:502");
    assert!(app.finish_tcp_connect(false));
    assert!(matches!(app.app_mode(), AppMode::Popup(PopupType::Connection)));
    assert_eq!(app.connecting_popup_field(), ConnectingField::Port);
    assert_eq!(app.field(ConnectingField::Address).chars().len(), 10);
}

#[test]
fn socket_address_text_joins_with_a_colon() {
    let address: Vec<char> = "10.0.0.7".chars().collect();
    let port: Vec<char> = "1502".chars().collect();
    assert_eq!(socket_address_text(&address, &port), "10.0.0.7:1502");
    assert_eq!(socket_address_text(&vec![], &vec![]), ":");
}

#[test]
fn up_on_an_emptied_queue_steps_back_from_a_lower_row() {
    let mut app = connected_tcp();
    app.refresh_queue(vec![vec![item(0, 4), item(0, 5), item(0, 6)]]);
    app.on_key(press(Key::Tab));
    app.on_key(ch('e'));
    assert_eq!(app.selected_bottom_tab(), SelectedBottomTab::Queue);
    app.on_key(press(Key::Up));
    assert_eq!(app.queue_selected(), Some(0));
    app.on_key(press(Key::Up));
    assert_eq!(app.queue_selected(), Some(2));
    app.refresh_queue(vec![vec![], vec![], vec![], vec![]]);
    assert_eq!(app.queue_items().len(), 0);
    assert!(app.key_allowed(press(Key::Up)));
    assert!(app.on_key(press(Key::Up)).is_none());
    assert_eq!(app.queue_item_index(), 1);
    assert_eq!(app.queue_selected(), Some(1));
    assert!(!app.key_allowed(press(Key::Down)));
}
