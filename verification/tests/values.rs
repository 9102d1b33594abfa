use magic_modbus::clock::format_clock;
use magic_modbus::enums::{
    CellType, ConnectType, ConnectionStatus, CurrentFocus, LogDirection, SelectedBottomTab,
    SelectedTopTab,
};
use magic_modbus::event::Notice;
use magic_modbus::input::{parse_decimal, CharClass, FieldInput, ShortInput};
use magic_modbus::layout::{footer_hint, page_bounds, page_start, reference_digit, table_stats};
use magic_modbus::queue::{
    bits_to_updates, queued_content_for, sort_queue_items, table_write_commands, words_to_updates,
    write_request, QueueItem, WriteRequest,
};

fn chars(s: &str) -> Vec<char> {
    s.chars().collect()
}

#[test]
fn cell_values() {
    assert_eq!(CellType::Coil(true).to_u16(), 1);
    assert_eq!(CellType::Coil(false).to_u16(), 0);
    assert_eq!(CellType::Word(0xBEEF).to_u16(), 0xBEEF);
}

#[test]
fn top_tabs_saturate_at_both_ends() {
    assert_eq!(SelectedTopTab::Coils.next(), SelectedTopTab::DiscreteInputs);
    assert_eq!(SelectedTopTab::DiscreteInputs.next(), SelectedTopTab::InputRegisters);
    assert_eq!(SelectedTopTab::InputRegisters.next(), SelectedTopTab::HoldingRegisters);
    assert_eq!(SelectedTopTab::HoldingRegisters.next(), SelectedTopTab::HoldingRegisters);
    assert_eq!(SelectedTopTab::Coils.previous(), SelectedTopTab::Coils);
    assert_eq!(SelectedTopTab::HoldingRegisters.previous(), SelectedTopTab::InputRegisters);
    assert_eq!(SelectedTopTab::from_repr(2), Some(SelectedTopTab::InputRegisters));
    assert_eq!(SelectedTopTab::from_repr(4), None);
    assert_eq!(SelectedTopTab::HoldingRegisters.index(), 3);
}

#[test]
fn bottom_tabs_saturate_at_both_ends() {
    assert_eq!(SelectedBottomTab::Connection.next(), SelectedBottomTab::Queue);
    assert_eq!(SelectedBottomTab::Queue.next(), SelectedBottomTab::Log);
    assert_eq!(SelectedBottomTab::Log.next(), SelectedBottomTab::Log);
    assert_eq!(SelectedBottomTab::Connection.previous(), SelectedBottomTab::Connection);
    assert_eq!(SelectedBottomTab::Log.previous(), SelectedBottomTab::Queue);
}

#[test]
fn tab_round_trip_on_concrete_tabs() {
    for t in [SelectedTopTab::Coils, SelectedTopTab::DiscreteInputs, SelectedTopTab::InputRegisters] {
        assert_eq!(t.next().previous(), t);
    }
    for t in [SelectedBottomTab::Queue, SelectedBottomTab::Log] {
        assert_eq!(t.previous().next(), t);
    }
}

#[test]
fn names_and_labels() {
    assert_eq!(SelectedTopTab::Coils.name(), "Coils");
    assert_eq!(SelectedTopTab::DiscreteInputs.name(), "Discrete Inputs");
    assert_eq!(SelectedTopTab::InputRegisters.name(), "Input Registers");
    assert_eq!(SelectedTopTab::HoldingRegisters.name(), "Holding Registers");
    assert_eq!(SelectedBottomTab::Log.name(), "Log");
    assert_eq!(ConnectType::Rtu.name(), "RTU");
    assert_eq!(ConnectType::default(), ConnectType::Tcp);
    assert_eq!(ConnectionStatus::default().name(), "NotConnected");
    assert_eq!(LogDirection::Tx.label(), "TX");
    assert_eq!(LogDirection::Rx.label(), "RX");
    assert_eq!(Notice::ConnectFirst.message(), "Connect to a server first.");
    assert_eq!(Notice::ConnectFirstToSave.message(), "Connect to a server first");
}

#[test]
fn decimal_parsing() {
    assert_eq!(parse_decimal(&chars("123"), u32::MAX), Some(123));
    assert_eq!(parse_decimal(&chars("00042"), u32::MAX), Some(42));
    assert_eq!(parse_decimal(&chars(""), u32::MAX), None);
    assert_eq!(parse_decimal(&chars("12a"), u32::MAX), None);
    assert_eq!(parse_decimal(&chars("4294967295"), u32::MAX), Some(4294967295));
    assert_eq!(parse_decimal(&chars("4294967296"), u32::MAX), None);
    assert_eq!(parse_decimal(&chars("99999999999999999999x"), u32::MAX), None);
    assert_eq!(parse_decimal(&chars("255"), 255), Some(255));
    assert_eq!(parse_decimal(&chars("256"), 255), None);
}

#[test]
fn connection_field_editing() {
    let mut f = FieldInput::new(CharClass::Digit);
    assert_eq!(f.chars(), &vec![' ']);
    assert!(!f.backspace());
    assert!(f.type_char('5'));
    assert!(f.type_char('0'));
    assert!(f.type_char('2'));
    assert!(!f.type_char('x'));
    assert_eq!(f.chars(), &chars("502 "));
    assert_eq!(f.cursor(), 3);
    f.left();
    f.left();
    assert!(f.backspace());
    assert_eq!(f.chars(), &chars("02 "));
    assert_eq!(f.cursor(), 0);
    assert!(f.delete());
    assert_eq!(f.chars(), &chars("2 "));
    f.right();
    assert_eq!(f.cursor(), 1);
    f.right();
    assert_eq!(f.cursor(), 1);
    assert!(!f.delete());
    assert_eq!(f.text(), chars("2"));
    let (before, at, after) = f.split_at_cursor();
    assert_eq!((before, at, after), (chars("2"), ' ', chars("")));
}

#[test]
fn character_classes() {
    for c in ['a', 'F', '9', '.', ':', '[', ']', '%'] {
        assert!(CharClass::Address.accepts(c));
    }
    for c in ['g', 'G', ' ', '/'] {
        assert!(!CharClass::Address.accepts(c));
    }
    for c in ['/', 'd', 'U', '_', '-', '\\', '0'] {
        assert!(CharClass::SerialPort.accepts(c));
    }
    for c in [' ', ':', '~'] {
        assert!(!CharClass::SerialPort.accepts(c));
    }
    assert!(CharClass::Digit.accepts('7'));
    assert!(!CharClass::Digit.accepts('a'));
}

#[test]
fn short_field_limits() {
    let mut s = ShortInput::new();
    for c in "12345".chars() {
        assert!(s.push_within(c, 5));
    }
    assert!(!s.push_within('6', 5));
    assert_eq!(s.cursor(), 5);
    assert!(s.backspace());
    assert_eq!(s.to_vec(), chars("1234"));
    assert_eq!(s.tail(2), chars("34"));
    assert_eq!(s.tail(9), chars("1234"));
    s.reset();
    assert!(!s.backspace());
}

#[test]
fn clock_text() {
    assert_eq!(format_clock(0), "00:00:00");
    assert_eq!(format_clock(3661), "01:01:01");
    assert_eq!(format_clock(86399), "23:59:59");
    assert_eq!(format_clock(86400 + 45296), "12:34:56");
}

#[test]
fn table_geometry() {
    assert_eq!(table_stats(SelectedTopTab::Coils, 10), (1, 3, 8, 16));
    assert_eq!(table_stats(SelectedTopTab::HoldingRegisters, 10), (1, 7, 8, 8));
    assert_eq!(table_stats(SelectedTopTab::InputRegisters, 1), (1, 7, 0, 8));
    assert_eq!(page_start(37, 64), 0);
    assert_eq!(page_start(130, 64), 128);
    assert_eq!(page_start(65535, 64), 65472);
    assert_eq!(reference_digit(SelectedTopTab::InputRegisters), 3);
    assert_eq!(page_bounds(2, 64), (128, 192));
    assert_eq!(page_bounds(1023, 64), (65472, 65534));
    assert_eq!(footer_hint(CurrentFocus::Top, SelectedBottomTab::Log), 1);
    assert_eq!(footer_hint(CurrentFocus::Bottom, SelectedBottomTab::Log), 6);
    assert_eq!(footer_hint(CurrentFocus::Bottom, SelectedBottomTab::Queue), 3);
}

fn item(table_index: usize, address: u16, queued: CellType) -> QueueItem {
    QueueItem {
        table_index,
        address,
        table_type: SelectedTopTab::from_repr(table_index).unwrap(),
        original_content: CellType::Word(0),
        queued_content: queued,
    }
}

#[test]
fn typed_values_become_cell_contents() {
    assert_eq!(queued_content_for(SelectedTopTab::Coils, 0), CellType::Coil(false));
    assert_eq!(queued_content_for(SelectedTopTab::Coils, 7), CellType::Coil(true));
    assert_eq!(queued_content_for(SelectedTopTab::DiscreteInputs, 1), CellType::Coil(true));
    assert_eq!(queued_content_for(SelectedTopTab::HoldingRegisters, 300), CellType::Word(300));
}

#[test]
fn read_results_become_updates() {
    let u = bits_to_updates(SelectedTopTab::Coils, 10, &vec![true, false, true]);
    assert_eq!(
        u,
        vec![
            (SelectedTopTab::Coils, 10, CellType::Coil(true)),
            (SelectedTopTab::Coils, 11, CellType::Coil(false)),
            (SelectedTopTab::Coils, 12, CellType::Coil(true)),
        ]
    );
    let w = words_to_updates(SelectedTopTab::InputRegisters, 65534, &vec![1, 2]);
    assert_eq!(
        w,
        vec![
            (SelectedTopTab::InputRegisters, 65534, CellType::Word(1)),
            (SelectedTopTab::InputRegisters, 65535, CellType::Word(2)),
        ]
    );
}

#[test]
fn writable_updates() {
    assert_eq!(
        write_request((SelectedTopTab::Coils, 3, CellType::Coil(true))),
        Some(WriteRequest::Coil(3, true))
    );
    assert_eq!(
        write_request((SelectedTopTab::HoldingRegisters, 9, CellType::Word(77))),
        Some(WriteRequest::Register(9, 77))
    );
    assert_eq!(write_request((SelectedTopTab::InputRegisters, 9, CellType::Word(77))), None);
    assert_eq!(write_request((SelectedTopTab::Coils, 9, CellType::Word(1))), None);
}

#[test]
fn queued_cells_become_write_commands_in_table_order() {
    let tables = vec![
        vec![item(0, 4, CellType::Coil(true))],
        vec![],
        vec![],
        vec![item(3, 1, CellType::Word(5)), item(3, 2, CellType::Word(6))],
    ];
    assert_eq!(
        table_write_commands(tables),
        vec![
            (SelectedTopTab::Coils, 4, CellType::Coil(true)),
            (SelectedTopTab::HoldingRegisters, 1, CellType::Word(5)),
            (SelectedTopTab::HoldingRegisters, 2, CellType::Word(6)),
        ]
    );
}

#[test]
fn queue_sorted_by_table_then_address_stably() {
    let items = vec![
        item(3, 9, CellType::Word(1)),
        item(0, 5, CellType::Coil(true)),
        item(3, 2, CellType::Word(2)),
        item(0, 5, CellType::Coil(false)),
        item(0, 1, CellType::Coil(true)),
    ];
    let sorted = sort_queue_items(&items);
    assert_eq!(
        sorted,
        vec![
            item(0, 1, CellType::Coil(true)),
            item(0, 5, CellType::Coil(true)),
            item(0, 5, CellType::Coil(false)),
            item(3, 2, CellType::Word(2)),
            item(3, 9, CellType::Word(1)),
        ]
    );
}
