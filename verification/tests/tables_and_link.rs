use magic_modbus::app::App;
use magic_modbus::logtext::{
    bits_text, coil_write_text, holding_read_text, read_request_text, read_result_text,
    register_write_text, words_text, write_done_text,
};
use magic_modbus::enums::{CellState, CellType, SelectedTopTab};
use magic_modbus::event::TableOp;
use magic_modbus::link::{
    after_read_reply, startup_link, LinkReport, ReadReply, StartupLink, WriteBatch, WriteReply,
};
use magic_modbus::queue::WriteRequest;
use magic_modbus::table::{Cell, CellTable, TableSet};

#[test]
fn fresh_tables_are_blank_with_the_cursor_on_the_first_cell() {
    let tables = TableSet::new();
    let coils = tables.table(SelectedTopTab::Coils);
    assert_eq!(coils.table_type(), SelectedTopTab::Coils);
    assert_eq!(coils.table_address(), 0);
    assert_eq!(coils.selected(), (0, 0));
    assert_eq!(coils.page_size(), 128);
    let holding = tables.table(SelectedTopTab::HoldingRegisters);
    assert_eq!(holding.table_cols(), 8);
    assert_eq!(holding.page_size(), 64);
    let cells = holding.visible_data(0, 2);
    assert_eq!(cells, vec![Cell::blank(SelectedTopTab::HoldingRegisters); 2]);
    assert_eq!(cells[0].shown_content(), CellType::Word(0));
    assert!(tables.queue_items().iter().all(|t| t.is_empty()));
}

#[test]
fn cursor_moves_and_page_changes() {
    let mut tables = TableSet::new();
    let tab = SelectedTopTab::InputRegisters;
    assert!(!tables.apply_op(tab, TableOp::MoveDown));
    assert_eq!(tables.table(tab).table_address(), 8);
    assert_eq!(tables.table(tab).selected(), (1, 0));
    assert!(tables.apply_op(tab, TableOp::PageDown));
    assert_eq!(tables.table(tab).table_address(), 72);
    assert_eq!(tables.table(tab).page_offset(), 1);
    assert_eq!(tables.table(tab).selected(), (1, 0));
    assert!(!tables.apply_op(tab, TableOp::MoveRight));
    assert_eq!(tables.table(tab).selected(), (1, 1));
    assert!(!tables.apply_op(tab, TableOp::GoToCell(65535)));
    assert_eq!(tables.table(tab).page_offset(), 1023);
    assert_eq!(tables.table(tab).selected(), (7, 7));
    assert!(!tables.apply_op(tab, TableOp::PageDown), "the last page stays");
    assert_eq!(tables.table(tab).table_address(), 65535);
    assert!(!tables.apply_op(tab, TableOp::GoToCell(3)));
    assert!(!tables.apply_op(tab, TableOp::PageUp), "page up stops at the first cell");
    assert_eq!(tables.table(tab).table_address(), 0);
    assert!(!tables.apply_op(tab, TableOp::MoveLeft));
    assert_eq!(tables.table(tab).table_address(), 0);
    assert_eq!(tables.table(SelectedTopTab::Coils).table_address(), 0, "other tables stay");
}

#[test]
fn queued_cells_survive_reads_and_are_applied_after_a_write() {
    let mut tables = TableSet::new();
    let tab = SelectedTopTab::HoldingRegisters;
    tables.apply_op(tab, TableOp::GoToCell(5));
    tables.apply_op(tab, TableOp::QueueCurrentCell(CellType::Word(77)));
    tables.set_cells(&vec![
        (tab, 5, CellType::Word(11)),
        (tab, 6, CellType::Word(12)),
        (SelectedTopTab::Coils, 6, CellType::Coil(true)),
    ]);
    let cells = tables.table(tab).visible_data(5, 7);
    assert_eq!(cells[0].original_content, CellType::Word(11));
    assert_eq!(cells[0].queued_content, CellType::Word(77));
    assert_eq!(cells[0].state, CellState::Queued);
    assert_eq!(cells[0].shown_content(), CellType::Word(77));
    assert_eq!(cells[1].shown_content(), CellType::Word(12));
    assert_eq!(tables.table(SelectedTopTab::Coils).visible_data(6, 7)[0].shown_content(), CellType::Coil(true));

    let items = tables.queue_items();
    assert_eq!(items.len(), 4);
    assert_eq!(items[3].len(), 1);
    assert_eq!(items[3][0].table_index, 3);
    assert_eq!(items[3][0].address, 5);
    assert_eq!(items[3][0].original_content, CellType::Word(11));
    assert_eq!(items[3][0].queued_content, CellType::Word(77));

    tables.apply_queued();
    let cell = tables.table(tab).visible_data(5, 6)[0];
    assert_eq!(cell.state, CellState::Normal);
    assert_eq!(cell.original_content, CellType::Word(77));
    assert!(tables.queue_items().iter().all(|t| t.is_empty()));
}

#[test]
fn toggling_and_reverting_coils() {
    let mut tables = TableSet::new();
    let tab = SelectedTopTab::Coils;
    tables.apply_op(tab, TableOp::MoveRight);
    tables.apply_op(tab, TableOp::ToggleCurrentCoil);
    assert_eq!(tables.table(tab).visible_data(1, 2)[0].shown_content(), CellType::Coil(true));
    tables.apply_op(tab, TableOp::ToggleCurrentCoil);
    assert_eq!(tables.table(tab).visible_data(1, 2)[0].shown_content(), CellType::Coil(false));
    assert_eq!(tables.queue_items()[0].len(), 1, "a toggled-back coil stays queued");
    tables.apply_op(tab, TableOp::RevertCurrentCell);
    assert!(tables.queue_items()[0].is_empty());

    tables.apply_op(tab, TableOp::QueueCurrentCell(CellType::Coil(true)));
    tables.revert_item(0, 1);
    assert_eq!(tables.table(tab).visible_data(1, 2)[0], Cell::blank(tab));
}

#[test]
fn a_word_cell_does_not_toggle() {
    let mut table = CellTable::new(SelectedTopTab::InputRegisters);
    table.toggle_current_coil();
    assert_eq!(table.queue_items(2), vec![]);
}

#[test]
fn read_replies_bring_updates_or_reports() {
    let mut updates = Vec::new();
    assert_eq!(
        after_read_reply(SelectedTopTab::Coils, 10, ReadReply::Bits(vec![true, false]), &mut updates),
        None
    );
    assert_eq!(
        after_read_reply(SelectedTopTab::InputRegisters, 65535, ReadReply::Words(vec![9]), &mut updates),
        None
    );
    assert_eq!(
        updates,
        vec![
            (SelectedTopTab::Coils, 10, CellType::Coil(true)),
            (SelectedTopTab::Coils, 11, CellType::Coil(false)),
            (SelectedTopTab::InputRegisters, 65535, CellType::Word(9)),
        ]
    );
    assert_eq!(
        after_read_reply(SelectedTopTab::HoldingRegisters, 0, ReadReply::Exception, &mut updates),
        Some(LinkReport::ConnectionError)
    );
    assert_eq!(
        after_read_reply(SelectedTopTab::InputRegisters, 0, ReadReply::Exception, &mut updates),
        Some(LinkReport::Error)
    );
    assert_eq!(
        after_read_reply(SelectedTopTab::Coils, 0, ReadReply::Lost, &mut updates),
        Some(LinkReport::ConnectionLost)
    );
    assert_eq!(updates.len(), 3);
}

#[test]
fn a_write_batch_skips_what_cannot_be_written() {
    let mut batch = WriteBatch::new(vec![
        (SelectedTopTab::InputRegisters, 1, CellType::Word(5)),
        (SelectedTopTab::Coils, 2, CellType::Coil(true)),
        (SelectedTopTab::DiscreteInputs, 3, CellType::Coil(true)),
        (SelectedTopTab::HoldingRegisters, 4, CellType::Word(6)),
    ]);
    assert_eq!(batch.next_request(), Some(WriteRequest::Coil(2, true)));
    assert_eq!(batch.on_reply(WriteReply::Done), None);
    assert_eq!(batch.next_request(), Some(WriteRequest::Register(4, 6)));
    assert_eq!(batch.on_reply(WriteReply::Done), None);
    assert_eq!(batch.next_request(), None);
    assert!(batch.succeeded());
    assert!(WriteBatch::new(vec![]).succeeded());
}

#[test]
fn a_write_batch_stops_at_the_first_failure() {
    let mut batch = WriteBatch::new(vec![
        (SelectedTopTab::Coils, 1, CellType::Coil(true)),
        (SelectedTopTab::Coils, 2, CellType::Coil(false)),
    ]);
    assert_eq!(batch.next_request(), Some(WriteRequest::Coil(1, true)));
    assert_eq!(batch.on_reply(WriteReply::Exception), Some(LinkReport::Error));
    assert_eq!(batch.next_request(), None);
    assert!(!batch.succeeded());

    let mut batch = WriteBatch::new(vec![(SelectedTopTab::HoldingRegisters, 1, CellType::Word(1))]);
    batch.next_request();
    assert_eq!(batch.on_reply(WriteReply::Lost), Some(LinkReport::ConnectionLost));
    assert!(!batch.succeeded());
}

#[test]
fn the_startup_link_prefers_tcp() {
    let serial = Some(String::from("/dev/ttyUSB0"));
    assert_eq!(startup_link(&Some(1u8), Some(502), &serial, Some(9600), Some(1)), StartupLink::Tcp);
    assert_eq!(startup_link(&Some(1u8), None, &serial, Some(9600), Some(1)), StartupLink::Rtu);
    assert_eq!(startup_link::<u8>(&None, Some(502), &serial, Some(9600), None), StartupLink::Neither);
    assert_eq!(startup_link::<u8>(&None, None, &None, None, None), StartupLink::Neither);
}

#[test]
fn queue_then_revert_gives_the_table_back() {
    let mut tables = TableSet::new();
    let tab = SelectedTopTab::HoldingRegisters;
    tables.set_cells(&vec![(tab, 0, CellType::Word(40))]);
    let before = tables.table(tab).visible_data(0, 1)[0];
    tables.apply_op(tab, TableOp::QueueCurrentCell(CellType::Word(41)));
    assert_eq!(tables.table(tab).visible_data(0, 1)[0].shown_content(), CellType::Word(41));
    tables.apply_op(tab, TableOp::RevertCurrentCell);
    assert_eq!(tables.table(tab).visible_data(0, 1)[0], before);
    assert!(tables.queue_items()[3].is_empty());
}

#[test]
fn the_cursor_stands_on_its_address() {
    let mut table = CellTable::new(SelectedTopTab::Coils);
    table.go_to_cell(300);
    let (row, col) = table.selected();
    assert_eq!(table.page_offset() * table.page_size() + row * table.table_cols() + col, 300);
    assert_eq!((table.page_offset(), row, col), (2, 2, 12));
}

#[test]
fn an_empty_range_shows_no_cells() {
    let table = CellTable::new(SelectedTopTab::DiscreteInputs);
    assert!(table.visible_data(9, 3).is_empty());
    assert!(table.visible_data(4, 4).is_empty());
    assert_eq!(table.visible_data(65534, 65535).len(), 1);
}

#[test]
fn log_lines_of_reads() {
    assert_eq!(read_request_text(SelectedTopTab::Coils, 0, 128), "Read Coils addr=0x0001 count=128");
    assert_eq!(
        read_request_text(SelectedTopTab::HoldingRegisters, 0xFFBF, 64),
        "Read Holding Registers addr=0xFFC0 count=64"
    );
    assert_eq!(holding_read_text(0x40, 64), "Sending Read Holding Registers addr=0x0040 count=64");
    assert_eq!(bits_text(&vec![true, false, true]), "[1 0 1]");
    assert_eq!(bits_text(&vec![]), "[]");
    assert_eq!(words_text(&vec![0xBEEF, 7]), "[0xBEEF 0x0007]");
    assert_eq!(read_result_text(&vec![1, 65535]), format!("Modbus Read Result: {:?}", vec![1u16, 65535]));
    assert_eq!(read_result_text(&vec![]), "Modbus Read Result: []");
}

#[test]
fn log_lines_of_writes() {
    assert_eq!(coil_write_text(9, true), "Write Single Coil addr=0x000A val=1");
    assert_eq!(coil_write_text(0, false), "Write Single Coil addr=0x0001 val=0");
    assert_eq!(register_write_text(0x1233, 500), "Write Single Register addr=0x1234 val=500");
    assert_eq!(write_done_text(65534, 0), "OK addr=0xFFFF val=0");
    for a in [0u16, 15, 255, 4095, 4096, 65534] {
        assert_eq!(write_done_text(a, a), format!("OK addr=0x{:04X} val={}", a + 1, a));
    }
}

#[test]
fn the_queue_lists_the_queued_cells_of_the_tables() {
    let mut app = App::new();
    let mut tables = TableSet::new();
    assert!(app.queue_items().is_empty());
    assert!(!app.apply_table_op(&mut tables, SelectedTopTab::Coils, TableOp::GoToCell(3)));
    assert!(app.queue_items().is_empty());
    app.apply_table_op(&mut tables, SelectedTopTab::Coils, TableOp::ToggleCurrentCoil);
    app.apply_table_op(&mut tables, SelectedTopTab::HoldingRegisters, TableOp::QueueCurrentCell(CellType::Word(9)));
    let listed: Vec<(usize, u16)> = app.queue_items().iter().map(|i| (i.table_index, i.address)).collect();
    assert_eq!(listed, vec![(0, 3), (3, 0)]);
    assert!(app.apply_table_op(&mut tables, SelectedTopTab::Coils, TableOp::PageDown));
    assert_eq!(app.queue_items().len(), 2, "a move keeps the queue");
    app.revert_queue_item(&mut tables, 0, 3);
    assert_eq!(app.queue_items().len(), 1);
    app.take_reads(&mut tables, &vec![(SelectedTopTab::HoldingRegisters, 0, CellType::Word(4))]);
    assert_eq!(app.queue_items()[0].original_content, CellType::Word(4));
    assert_eq!(app.queue_items()[0].queued_content, CellType::Word(9));
    app.take_written(&mut tables);
    assert!(app.queue_items().is_empty());
    assert_eq!(tables.table(SelectedTopTab::HoldingRegisters).visible_data(0, 1)[0].shown_content(), CellType::Word(9));
    app.refresh_queue_from(&tables);
    assert!(app.queue_items().is_empty());
}
