//! Properties of the client that span several operations.

use vstd::prelude::*;
use crate::app::{AppView, MAX_LOG_ENTRIES};
use crate::enums::{
    AppMode, CellType, CurrentFocus, LogEntry, PopupType, SelectedBottomTab, SelectedTopTab,
};
use crate::event::{EffectView, Key, KeyPress, TableOp};
use crate::input::{
    CharClass, FieldView, all_digits, decimal_value, decimal_within, digit_value, is_digit,
};
use crate::queue::QueueItem;
use crate::table::{Cell, TableView, blank_cell, queued_prefix, after_reads};
use crate::app::{initial_view, queued_in};
use crate::queue::{concat_all, write_request_of, write_command_of, WriteRequest};
use crate::enums::{ConnectType, ConnectionStatus, ConnectingField, SelectedConnectionButton};
use crate::event::{Notice, MacroSaveOutcome};
use crate::enums::{CellState, SaveMacroMode};
use crate::app::FILE_NAME_LIMIT;
use crate::queue::{bit_updates, word_updates, content_for, stably_sorted, has_key};
use crate::link::{
    LinkReport, ReadReply, WriteReply, first_writable, read_report_of, read_updates_of,
    write_report_of,
};

verus! {

/// Moving right and then left comes back to the same top tab, except from the last one.
pub proof fn lemma_top_tab_round_trip(t: SelectedTopTab)
    ensures
        t != SelectedTopTab::HoldingRegisters ==> t.following().preceding() == t,
        t != SelectedTopTab::Coils ==> t.preceding().following() == t,
{
}

/// Moving right and then left comes back to the same bottom tab, except from the last one.
pub proof fn lemma_bottom_tab_round_trip(t: SelectedBottomTab)
    ensures
        t != SelectedBottomTab::Log ==> t.following().preceding() == t,
        t != SelectedBottomTab::Connection ==> t.preceding().following() == t,
{
}

/// Backspace right after typing a character erases just that character.
pub proof fn lemma_type_then_backspace(fv: FieldView, class: CharClass, c: char)
    requires
        fv.wf(class),
        class.allows(c),
    ensures
        fv.typed(class, c) matches Some(n) && n.backspace() == Some(fv),
{
    let n = fv.typed(class, c).unwrap();
    assert(n.chars.remove(n.cursor - 1) =~= fv.chars);
}

/// Right after Left comes back to the same cursor, unless the cursor was at the start.
pub proof fn lemma_left_then_right(fv: FieldView, class: CharClass)
    requires
        fv.wf(class),
        fv.cursor > 0,
    ensures
        fv.left().right() == fv,
{
}

pub open spec fn press(code: Key) -> KeyPress {
    KeyPress { code, shift: false, pressed: true }
}

/// In the main view, Tab twice gives the focus back to the same half and changes nothing else.
pub proof fn lemma_tab_twice(v: AppView)
    requires
        v.app_mode matches AppMode::Main,
    ensures
        v.key_step(press(Key::Tab)).1 is None,
        v.key_step(press(Key::Tab)).0.key_step(press(Key::Tab)).1 is None,
        v.key_step(press(Key::Tab)).0.key_step(press(Key::Tab)).0 == v,
{
}

/// In the main view, `?` opens the help and `?` closes it again, changing nothing else.
pub proof fn lemma_help_round_trip(v: AppView)
    requires
        v.app_mode matches AppMode::Main,
    ensures
        v.key_step(press(Key::Char('?'))).0.app_mode matches AppMode::Help,
        v.key_step(press(Key::Char('?'))).0.key_step(press(Key::Char('?'))).0 == v,
{
}

/// With the top half focused, `R` twice leaves the page refresh as it was.
pub proof fn lemma_page_refresh_toggle_twice(v: AppView)
    requires
        v.app_mode matches AppMode::Main,
        v.current_focus == CurrentFocus::Top,
    ensures
        v.key_step(press(Key::Char('R'))).0.page_refresh == !v.page_refresh,
        v.key_step(press(Key::Char('R'))).0.key_step(press(Key::Char('R'))).0 == v,
{
}

/// A released key changes nothing.
pub proof fn lemma_release_ignored(v: AppView, code: Key, shift: bool)
    ensures
        v.key_step(KeyPress { code, shift, pressed: false }) == (v, None::<crate::event::EffectView>),
{
}

/// A new log line ends the log and the view scrolls to it; the log never
/// exceeds its limit, and when it is full the oldest line goes.
pub proof fn lemma_logged(v: AppView, entry: LogEntry)
    requires
        v.wf(),
    ensures
        v.logged(entry).log.last() == entry,
        v.logged(entry).log_scroll_position == v.logged(entry).log.len() - 1,
        v.log.len() < MAX_LOG_ENTRIES ==> v.logged(entry).log == v.log.push(entry),
        v.log.len() == MAX_LOG_ENTRIES ==> v.logged(entry).log == v.log.drop_first().push(entry),
        v.logged(entry).wf(),
{
    if v.log.len() == MAX_LOG_ENTRIES {
        assert(v.log.push(entry).drop_first() =~= v.log.drop_first().push(entry));
    }
}

/// Closing a link forgets it entirely, whichever kind of link was opened.
pub proof fn lemma_disconnect_undoes_connect(
    v: AppView,
    ipv4: Option<[u8; 4]>,
    port: u16,
    serial: String,
    baud_rate: u32,
    slave_id: u8,
)
    ensures
        v.connected_tcp(ipv4, port).disconnected() == v.disconnected(),
        v.connected_rtu(serial, baud_rate, slave_id).disconnected() == v.disconnected(),
        !v.disconnected().connected(),
{
}

/// Moving the queue selection down or up always lands on a row of a non-empty
/// queue, provided the selection was on a row or absent.
pub proof fn lemma_queue_selection_in_range(v: AppView)
    requires
        v.queue.len() > 0,
        v.queue_selected matches Some(i) ==> i < v.queue.len(),
    ensures
        v.queue_next().queue_item_index < v.queue.len(),
        v.queue_next().queue_selected == Some(v.queue_next().queue_item_index),
        v.queue_previous().queue_item_index < v.queue.len(),
        v.queue_previous().queue_selected == Some(v.queue_previous().queue_item_index),
{
}

/// Down and then Up in the queue comes back to the selected row.
pub proof fn lemma_queue_down_then_up(v: AppView)
    requires
        0 < v.queue.len() <= usize::MAX,
        v.queue_selected matches Some(i) && i < v.queue.len(),
    ensures
        v.queue_next().queue_previous().queue_selected == v.queue_selected,
{
    let i = v.queue_selected.unwrap();
    let w = v.queue_next();
    if i >= v.queue.len() - 1 {
        assert(i == v.queue.len() - 1);
        assert(w.queue_selected == Some(0usize));
        assert(w.queue.len() == v.queue.len());
        assert(((w.queue.len() - 1) as usize) == i);
    } else {
        assert(i + 1 < v.queue.len());
        assert(((i + 1) as usize) as int == i + 1);
        assert(w.queue_selected == Some((i + 1) as usize));
        assert((((i + 1) as usize) - 1) as usize == i);
    }
}

/// After the queue is rebuilt, a non-empty queue has its selected index on one of its items.
pub proof fn lemma_refresh_keeps_index_in_range(v: AppView, items: Seq<QueueItem>)
    ensures
        items.len() > 0 ==> v.queue_refreshed(items).queue_item_index < items.len(),
        v.queue_refreshed(items).queue == items,
{
}

/// The address popup accepts exactly the addresses 1 to 65535 and moves the
/// cursor of the current table to the 0-based cell of that address; anything
/// else beeps and leaves the popup open.
pub proof fn lemma_goto_accepts_addresses(v: AppView)
    requires
        v.wf(),
        v.app_mode matches AppMode::Popup(PopupType::Goto),
    ensures
        ({
            let (w, e) = v.key_step(press(Key::Enter));
            match decimal_within(v.goto_input, u32::MAX as nat) {
                Some(n) => if 1 <= n <= 65535 {
                    &&& e == Some(EffectView::Table {
                        table: v.selected_top_tab,
                        op: TableOp::GoToCell((n - 1) as u16),
                    })
                    &&& w.app_mode matches AppMode::Main
                    &&& w.goto_input.len() == 0
                } else {
                    e == Some(EffectView::Beep) && w == v
                },
                None => e == Some(EffectView::Beep) && w == v,
            }
        }),
        v.goto_input.len() > 0 ==> decimal_within(v.goto_input, u32::MAX as nat) is Some,
{
    if v.goto_input.len() > 0 {
        lemma_short_number_fits(v.goto_input);
    }
}

/// The value popup accepts exactly the values 0 to 65535: a bit table queues
/// the cell as on for any value but 0, a register table queues the value itself.
pub proof fn lemma_edit_accepts_values(v: AppView)
    requires
        v.wf(),
        v.app_mode matches AppMode::Popup(PopupType::Edit),
    ensures
        ({
            let (w, e) = v.key_step(press(Key::Enter));
            match decimal_within(v.edit_input, u32::MAX as nat) {
                Some(n) => if n <= 65535 {
                    &&& e == Some(EffectView::Table {
                        table: v.selected_top_tab,
                        op: TableOp::QueueCurrentCell(
                            if v.selected_top_tab.holds_bits() {
                                CellType::Coil(n != 0)
                            } else {
                                CellType::Word(n as u16)
                            },
                        ),
                    })
                    &&& w.app_mode matches AppMode::Main
                    &&& w.edit_input.len() == 0
                } else {
                    e == Some(EffectView::Beep) && w == v
                },
                None => e == Some(EffectView::Beep) && w == v,
            }
        }),
        v.edit_input.len() > 0 ==> decimal_within(v.edit_input, u32::MAX as nat) is Some,
{
    if v.edit_input.len() > 0 {
        lemma_short_number_fits(v.edit_input);
    }
}

/// A string of at most five digits always spells a number below 100000.
proof fn lemma_short_number_fits(s: Seq<char>)
    requires
        0 < s.len() <= 5,
        all_digits(s),
    ensures
        decimal_value(s) < 100000,
{
    lemma_decimal_below_power(s);
    reveal_with_fuel(ten_to, 6);
    assert(ten_to(s.len()) <= 100000);
}

spec fn ten_to(n: nat) -> nat
    decreases n,
{
    if n == 0 {
        1
    } else {
        10 * ten_to((n - 1) as nat)
    }
}

proof fn lemma_decimal_below_power(s: Seq<char>)
    requires
        all_digits(s),
    ensures
        decimal_value(s) < ten_to(s.len()),
    decreases s.len(),
{
    if s.len() > 0 {
        assert(all_digits(s.drop_last()));
        lemma_decimal_below_power(s.drop_last());
        assert(is_digit(s[s.len() - 1]));
        assert(digit_value(s.last()) <= 9);
    }
}

/// Queuing a content for a cell that waits for no write, and then reverting
/// that cell, gives back the table as it was.
pub proof fn lemma_queue_then_revert(t: TableView, c: CellType)
    requires
        t.wf(),
        !t.current().is_queued(),
    ensures
        t.after(TableOp::QueueCurrentCell(c)).after(TableOp::RevertCurrentCell) == t,
{
    let a = t.table_address as int;
    assert(t.cells[a].settled());
    let u = t.after(TableOp::QueueCurrentCell(c));
    assert(u.after(TableOp::RevertCurrentCell).cells =~= t.cells);
}

/// A read of a queued cell takes the value read as the cell's content but
/// keeps the cell queued with what the table shows.
pub proof fn lemma_read_keeps_queued(cell: Cell, content: CellType)
    requires
        cell.is_queued(),
    ensures
        cell.read_as(content).is_queued(),
        cell.read_as(content).shown() == cell.shown(),
        cell.read_as(content).original_content == content,
{
}

/// Moving the cursor changes no cell.
pub proof fn lemma_moves_keep_cells(t: TableView, op: TableOp)
    requires
        op is PageUp || op is MoveUp || op is PageDown || op is MoveDown || op is MoveLeft
            || op is MoveRight || op is GoToCell,
    ensures
        t.after(op).cells == t.cells,
{
}

/// The cursor stands on its address: page times page size, plus row times
/// columns, plus column, gives the address back, and the row and column lie
/// within the page.
pub proof fn lemma_cursor_on_address(t: TableView, address: u16)
    requires
        t.wf(),
    ensures
        t.at(address).page_offset * t.page_size() + t.at(address).selected.0 * t.table_cols
            + t.at(address).selected.1 == address,
        t.at(address).selected.0 < t.table_rows,
        t.at(address).selected.1 < t.table_cols,
{
    let cols = t.table_cols as int;
    let ps = t.page_size() as int;
    let a = address as int;
    assert(cols == 16 || cols == 8);
    assert(ps == 8 * cols);
    let within = a % ps;
    vstd::arithmetic::div_mod::lemma_fundamental_div_mod(a, ps);
    vstd::arithmetic::div_mod::lemma_fundamental_div_mod(within, cols);
    assert(0 <= within < ps);
    assert(within / cols < 8) by {
        vstd::arithmetic::div_mod::lemma_div_by_multiple_is_strongly_ordered(within, ps, 8, cols);
        vstd::arithmetic::div_mod::lemma_div_multiples_vanish(8, cols);
    }
    assert(a / ps * ps == ps * (a / ps)) by (nonlinear_arith);
    assert(within / cols * cols == cols * (within / cols)) by (nonlinear_arith);
}

proof fn lemma_no_queued_prefix(cells: Seq<Cell>, n: int, table_index: usize)
    requires
        0 <= n <= cells.len(),
        forall|i: int| 0 <= i < n ==> !(#[trigger] cells[i]).is_queued(),
    ensures
        queued_prefix(cells, n, table_index) == Seq::<QueueItem>::empty(),
    decreases n,
{
    if n > 0 {
        lemma_no_queued_prefix(cells, n - 1, table_index);
    }
}

/// Once the queued contents are written, no cell of the table waits for a
/// write, and every cell shows what it showed before.
pub proof fn lemma_apply_empties_queue(t: TableView, table_index: usize)
    requires
        t.wf(),
    ensures
        t.all_applied().queued_items(table_index) == Seq::<QueueItem>::empty(),
        forall|i: int| 0 <= i < t.cells.len() ==> #[trigger] t.all_applied().cells[i].shown() == t.cells[i].shown(),
{
    let u = t.all_applied();
    assert forall|i: int| 0 <= i < u.cells.len() implies !(#[trigger] u.cells[i]).is_queued() by {}
    lemma_no_queued_prefix(u.cells, u.cells.len() as int, table_index);
}

/// The queue tab lists exactly the queued cells of the four tables from the
/// start: fresh tables hold no queued cell and a fresh client an empty queue.
/// Every operation on the tables keeps it so (see the contracts of
/// `App::apply_table_op`, `App::revert_queue_item`, `App::take_reads` and
/// `App::take_written`).
pub proof fn lemma_fresh_queue_lists_the_tables(tables: Seq<TableView>)
    requires
        tables.len() == 4,
        forall|i: int|
            0 <= i < 4 ==> (#[trigger] tables[i]).cells == Seq::new(
                65536,
                |k: int| blank_cell(tables[i].table_type),
            ),
    ensures
        queued_in(tables) == Seq::<QueueItem>::empty(),
        initial_view().queue == queued_in(tables),
{
    let parts = Seq::new(tables.len(), |i: int| tables[i].queued_items(i as usize));
    assert forall|i: int| 0 <= i < 4 implies #[trigger] parts[i] == Seq::<QueueItem>::empty() by {
        let t = tables[i];
        assert forall|k: int| 0 <= k < t.cells.len() implies !(#[trigger] t.cells[k]).is_queued() by {}
        lemma_no_queued_prefix(t.cells, t.cells.len() as int, i as usize);
    }
    reveal_with_fuel(concat_all, 5);
    assert(parts.drop_last().drop_last().drop_last().drop_last() =~= Seq::<Seq<QueueItem>>::empty());
    assert(concat_all(parts) =~= Seq::<QueueItem>::empty());
}

/// In the main view with the top half focused, `u` drops the queued write of
/// the cell under the cursor of the current table when the link is up, and
/// does nothing otherwise; the state stays as it is either way.
pub proof fn lemma_u_reverts_current_cell(v: AppView, shift: bool)
    requires
        v.app_mode == AppMode::Main,
        v.current_focus == CurrentFocus::Top,
    ensures
        v.connection_status == ConnectionStatus::Connected ==> v.key_step(
            KeyPress { code: Key::Char('u'), shift, pressed: true },
        ) == (v, Some(EffectView::Table { table: v.selected_top_tab, op: TableOp::RevertCurrentCell })),
        v.connection_status != ConnectionStatus::Connected ==> v.key_step(
            KeyPress { code: Key::Char('u'), shift, pressed: true },
        ) == (v, None::<EffectView>),
{
}

/// In the main view with the top half focused, the arrow keys and W A S D move
/// the cursor of the current table, by a row or, with Shift, by a page for Up
/// and Down; the state stays as it is.
pub proof fn lemma_top_keys_move_the_cursor(v: AppView, shift: bool)
    requires
        v.app_mode == AppMode::Main,
        v.current_focus == CurrentFocus::Top,
    ensures
        v.key_step(KeyPress { code: Key::Up, shift, pressed: true }) == (v, Some(EffectView::Table {
            table: v.selected_top_tab,
            op: if shift { TableOp::PageUp } else { TableOp::MoveUp },
        })),
        v.key_step(KeyPress { code: Key::Char('w'), shift, pressed: true }) == (v, Some(EffectView::Table {
            table: v.selected_top_tab,
            op: if shift { TableOp::PageUp } else { TableOp::MoveUp },
        })),
        v.key_step(KeyPress { code: Key::Down, shift, pressed: true }) == (v, Some(EffectView::Table {
            table: v.selected_top_tab,
            op: if shift { TableOp::PageDown } else { TableOp::MoveDown },
        })),
        v.key_step(KeyPress { code: Key::Char('s'), shift, pressed: true }) == (v, Some(EffectView::Table {
            table: v.selected_top_tab,
            op: if shift { TableOp::PageDown } else { TableOp::MoveDown },
        })),
        v.key_step(KeyPress { code: Key::Left, shift, pressed: true }) == (v, Some(EffectView::Table {
            table: v.selected_top_tab,
            op: TableOp::MoveLeft,
        })),
        v.key_step(KeyPress { code: Key::Char('a'), shift, pressed: true }) == (v, Some(EffectView::Table {
            table: v.selected_top_tab,
            op: TableOp::MoveLeft,
        })),
        v.key_step(KeyPress { code: Key::Right, shift, pressed: true }) == (v, Some(EffectView::Table {
            table: v.selected_top_tab,
            op: TableOp::MoveRight,
        })),
        v.key_step(KeyPress { code: Key::Char('d'), shift, pressed: true }) == (v, Some(EffectView::Table {
            table: v.selected_top_tab,
            op: TableOp::MoveRight,
        })),
{
}

/// Where each move puts the cursor: a page is `rows * cols` cells, a row
/// `cols` cells; a move up or left stops at address 0, a move down or right
/// at the last address; a go-to puts the cursor on the address; and none of
/// them changes a cell.
pub proof fn lemma_move_targets(t: TableView, address: u16)
    requires
        t.wf(),
    ensures
        t.after(TableOp::PageUp).table_address == (if t.table_address >= t.table_rows * t.table_cols {
            t.table_address - t.table_rows * t.table_cols
        } else {
            0
        }),
        t.after(TableOp::PageDown).table_address == (if t.table_address + t.table_rows * t.table_cols
            <= 65535 {
            t.table_address + t.table_rows * t.table_cols
        } else {
            65535
        }),
        t.after(TableOp::MoveUp).table_address == (if t.table_address >= t.table_cols {
            t.table_address - t.table_cols
        } else {
            0
        }),
        t.after(TableOp::MoveDown).table_address == (if t.table_address + t.table_cols <= 65535 {
            t.table_address + t.table_cols
        } else {
            65535
        }),
        t.after(TableOp::MoveLeft).table_address == (if t.table_address > 0 {
            t.table_address - 1
        } else {
            0
        }),
        t.after(TableOp::MoveRight).table_address == (if t.table_address < 65535 {
            t.table_address + 1
        } else {
            65535
        }),
        t.after(TableOp::GoToCell(address)).table_address == address,
        t.after(TableOp::PageUp).cells == t.cells,
        t.after(TableOp::PageDown).cells == t.cells,
{
}

/// Page up and page down mirror each other: from an address at least a page
/// from either end, a page down and then a page up give the cursor back, and
/// so do a page up and then a page down; a page up from there lands on the
/// page before, at the same row and column.
pub proof fn lemma_page_up_mirrors_page_down(t: TableView)
    requires
        t.wf(),
        t.table_address >= t.table_rows * t.table_cols,
        t.table_address + t.table_rows * t.table_cols <= 65535,
    ensures
        t.after(TableOp::PageDown).after(TableOp::PageUp).table_address == t.table_address,
        t.after(TableOp::PageUp).after(TableOp::PageDown).table_address == t.table_address,
        t.after(TableOp::PageUp).page_offset == t.at(t.table_address).page_offset - 1,
        t.after(TableOp::PageUp).selected == t.at(t.table_address).selected,
{
    let a = t.table_address as int;
    let ps = (t.table_rows * t.table_cols) as int;
    assert(t.table_cols == 16 || t.table_cols == 8);
    assert(ps == 8 * t.table_cols);
    assert(ps > 0);
    assert((a - ps) / ps == a / ps - 1 && (a - ps) % ps == a % ps) by {
        vstd::arithmetic::div_mod::lemma_fundamental_div_mod(a, ps);
        vstd::arithmetic::div_mod::lemma_fundamental_div_mod(a - ps, ps);
        vstd::arithmetic::div_mod::lemma_div_plus_one(a - ps, ps);
        vstd::arithmetic::div_mod::lemma_mod_add_multiples_vanish(a - ps, ps);
    }
}

/// After the queue is rebuilt, a selected index that still lies within the
/// new queue is kept, and one that fell beyond the end of a non-empty queue
/// moves to its last item.
pub proof fn lemma_refresh_clamps_to_last_item(v: AppView, items: Seq<QueueItem>)
    ensures
        v.queue_item_index < items.len() ==> v.queue_refreshed(items).queue_item_index
            == v.queue_item_index,
        items.len() > 0 && v.queue_item_index >= items.len() ==> v.queue_refreshed(items).queue_item_index
            == items.len() - 1,
        items.len() == 0 ==> v.queue_refreshed(items).queue_item_index == v.queue_item_index,
        v.queue_refreshed(items).queue == items,
{
}

/// Enter on the RTU form opens the link exactly when the serial port is
/// named, the baud rate is a decimal number that fits 32 bits and the slave
/// id one of at most 255; the link then gets those values and the form is
/// cleared and closed. Otherwise the terminal beeps and nothing changes.
pub proof fn lemma_rtu_enter_takes_every_32_bit_baud_rate(v: AppView)
    requires
        v.app_mode == AppMode::Popup(PopupType::Connection),
        v.connect_type == ConnectType::Rtu,
    ensures
        ({
            let port = v.serial_port_input.text();
            let baud = v.baud_rate_input.text();
            let slave = v.slave_id_input.text();
            let ok = port.len() > 0 && baud.len() > 0 && all_digits(baud) && decimal_value(baud)
                <= 4294967295 && slave.len() > 0 && all_digits(slave) && decimal_value(slave) <= 255;
            let r = v.key_step(KeyPress { code: Key::Enter, shift: false, pressed: true });
            &&& ok ==> r.1 == Some(EffectView::ConnectRtu {
                port,
                baud_rate: decimal_value(baud) as u32,
                slave_id: decimal_value(slave) as u8,
            })
            &&& ok ==> r.0.app_mode == AppMode::Main && r.0.serial_port_input == FieldView::empty()
                && r.0.baud_rate_input == FieldView::empty() && r.0.slave_id_input == FieldView::empty()
            &&& !ok ==> r == (v, Some(EffectView::Beep))
        }),
{
}

/// A queued coil is written as that coil with its queued value, on or off; a
/// queued holding register as that register with its queued word; nothing
/// else is writable.
pub proof fn lemma_writes_carry_the_queued_value(address: u16, b: bool, w: u16, item: QueueItem)
    ensures
        write_request_of((SelectedTopTab::Coils, address, CellType::Coil(b))) == Some(
            WriteRequest::Coil(address, b),
        ),
        write_request_of((SelectedTopTab::HoldingRegisters, address, CellType::Word(w))) == Some(
            WriteRequest::Register(address, w),
        ),
        write_request_of((SelectedTopTab::DiscreteInputs, address, CellType::Coil(b))) is None,
        write_request_of((SelectedTopTab::InputRegisters, address, CellType::Word(w))) is None,
        item.table_type == SelectedTopTab::Coils && item.queued_content == CellType::Coil(b)
            ==> write_request_of(write_command_of(item)) == Some(WriteRequest::Coil(item.address, b)),
        item.table_type == SelectedTopTab::HoldingRegisters && item.queued_content == CellType::Word(w)
            ==> write_request_of(write_command_of(item)) == Some(
            WriteRequest::Register(item.address, w),
        ),
{
}

pub open spec fn pressed(code: Key, shift: bool) -> KeyPress {
    KeyPress { code, shift, pressed: true }
}

/// The other keys of the main view with the top half focused: `r` reads the
/// page and Enter writes the queue when the link is up, and otherwise ask
/// for a link first; Space toggles a coil or opens the value popup on holding
/// registers when the link is up; `g` opens the address popup, `?` the help,
/// Shift+R and Shift+T flip the refresh settings, `q` and `e` change the top
/// tab, Tab hands the focus to the bottom half and Esc quits.
pub proof fn lemma_top_keys(v: AppView, shift: bool)
    requires
        v.app_mode == AppMode::Main,
        v.current_focus == CurrentFocus::Top,
    ensures
        v.key_step(pressed(Key::Char('r'), shift)) == (v, Some(
            if v.connection_status == ConnectionStatus::Connected {
                EffectView::ReadCurrentPage
            } else {
                EffectView::Report(Notice::ConnectFirst)
            },
        )),
        v.key_step(pressed(Key::Enter, shift)) == (v, Some(
            if v.connection_status == ConnectionStatus::Connected {
                EffectView::ApplyQueued
            } else {
                EffectView::Report(Notice::ConnectFirst)
            },
        )),
        v.connection_status != ConnectionStatus::Connected ==> v.key_step(pressed(Key::Char(' '), shift))
            == (v, Some(EffectView::Report(Notice::ConnectFirst))),
        v.connection_status == ConnectionStatus::Connected && v.selected_top_tab == SelectedTopTab::Coils
            ==> v.key_step(pressed(Key::Char(' '), shift)) == (v, Some(EffectView::Table {
            table: SelectedTopTab::Coils,
            op: TableOp::ToggleCurrentCoil,
        })),
        v.connection_status == ConnectionStatus::Connected && v.selected_top_tab
            == SelectedTopTab::HoldingRegisters ==> v.key_step(pressed(Key::Char(' '), shift)) == (
            AppView { app_mode: AppMode::Popup(PopupType::Edit), ..v },
            None::<EffectView>,
        ),
        v.connection_status == ConnectionStatus::Connected && (v.selected_top_tab
            == SelectedTopTab::DiscreteInputs || v.selected_top_tab == SelectedTopTab::InputRegisters)
            ==> v.key_step(pressed(Key::Char(' '), shift)) == (v, None::<EffectView>),
        v.key_step(pressed(Key::Char('g'), shift)) == (
            AppView { app_mode: AppMode::Popup(PopupType::Goto), ..v },
            None::<EffectView>,
        ),
        v.key_step(pressed(Key::Char('?'), shift)) == (AppView { app_mode: AppMode::Help, ..v }, None::<
            EffectView,
        >),
        v.key_step(pressed(Key::Char('R'), shift)) == (
            AppView { page_refresh: !v.page_refresh, ..v },
            None::<EffectView>,
        ),
        v.key_step(pressed(Key::Char('T'), shift)) == (
            AppView { tick_refresh: !v.tick_refresh, ..v },
            None::<EffectView>,
        ),
        v.key_step(pressed(Key::Char('q'), shift)).0.selected_top_tab.position() == (if v.selected_top_tab.position()
            > 0 {
            v.selected_top_tab.position() - 1
        } else {
            0
        }),
        v.key_step(pressed(Key::Char('e'), shift)).0.selected_top_tab.position() == (if v.selected_top_tab.position()
            < 3 {
            v.selected_top_tab.position() + 1
        } else {
            3
        }),
        v.key_step(pressed(Key::Tab, shift)) == (
            AppView { current_focus: CurrentFocus::Bottom, ..v },
            None::<EffectView>,
        ),
        v.key_step(pressed(Key::Esc, shift)) == (AppView { exit: true, ..v }, None::<EffectView>),
{
}

/// In the queue tab, Down selects the row after the selected one and Up the
/// row before, wrapping at either end, and the first row when none was
/// selected; `g` shows the selected item's table with the cursor on its
/// address, and `r` asks to drop the selected item's queued write.
pub proof fn lemma_queue_tab_keys(v: AppView, shift: bool)
    requires
        v.app_mode == AppMode::Main,
        v.current_focus == CurrentFocus::Bottom,
        v.selected_bottom_tab == SelectedBottomTab::Queue,
        0 < v.queue.len() <= usize::MAX,
        v.queue_item_index < v.queue.len(),
        v.queue_selected matches Some(i) ==> i < v.queue.len(),
        v.wf(),
    ensures
        ({
            let down = v.key_step(pressed(Key::Down, shift));
            let up = v.key_step(pressed(Key::Up, shift));
            let n = v.queue.len();
            &&& down.1 == None::<EffectView> && up.1 == None::<EffectView>
            &&& down.0.queue_selected == Some(down.0.queue_item_index)
            &&& up.0.queue_selected == Some(up.0.queue_item_index)
            &&& v.queue_selected is None ==> down.0.queue_item_index == 0 && up.0.queue_item_index == 0
            &&& v.queue_selected matches Some(i) ==> down.0.queue_item_index == (if i + 1 < n {
                i + 1
            } else {
                0
            }) && up.0.queue_item_index == (if i > 0 {
                i - 1
            } else {
                n - 1
            })
        }),
        ({
            let item = v.queue[v.queue_item_index as int];
            let g = v.key_step(pressed(Key::Char('g'), shift));
            &&& g.0.selected_top_tab.position() == item.table_index
            &&& g.1 == Some(EffectView::Table {
                table: g.0.selected_top_tab,
                op: TableOp::GoToCell(item.address),
            })
            &&& v.key_step(pressed(Key::Char('r'), shift)) == (v, Some(EffectView::RevertQueueItem {
                table_index: item.table_index,
                address: item.address,
            }))
        }),
{
    assert(v.queue[v.queue_item_index as int].wf());
}

/// In the connection tab, Left and `a` pick New Connection, Right and `d`
/// pick Disconnect, and Enter opens the connection form or asks to close the
/// link, whichever button is picked.
pub proof fn lemma_connection_tab_keys(v: AppView, shift: bool)
    requires
        v.app_mode == AppMode::Main,
        v.current_focus == CurrentFocus::Bottom,
        v.selected_bottom_tab == SelectedBottomTab::Connection,
    ensures
        v.key_step(pressed(Key::Left, shift)) == (
            AppView { selected_connection_button: SelectedConnectionButton::NewConnection, ..v },
            None::<EffectView>,
        ),
        v.key_step(pressed(Key::Char('a'), shift)) == (
            AppView { selected_connection_button: SelectedConnectionButton::NewConnection, ..v },
            None::<EffectView>,
        ),
        v.key_step(pressed(Key::Right, shift)) == (
            AppView { selected_connection_button: SelectedConnectionButton::Disconnect, ..v },
            None::<EffectView>,
        ),
        v.key_step(pressed(Key::Char('d'), shift)) == (
            AppView { selected_connection_button: SelectedConnectionButton::Disconnect, ..v },
            None::<EffectView>,
        ),
        v.selected_connection_button == SelectedConnectionButton::NewConnection ==> v.key_step(
            pressed(Key::Enter, shift),
        ) == (AppView { app_mode: AppMode::Popup(PopupType::Connection), ..v }, None::<EffectView>),
        v.selected_connection_button == SelectedConnectionButton::Disconnect ==> v.key_step(
            pressed(Key::Enter, shift),
        ) == (v, Some(EffectView::Disconnect)),
{
}

/// In the log tab, Up scrolls one line back, stopping at the first line;
/// Down one line on, stopping at the last; and `c` clears the log.
pub proof fn lemma_log_tab_keys(v: AppView, shift: bool)
    requires
        v.app_mode == AppMode::Main,
        v.current_focus == CurrentFocus::Bottom,
        v.selected_bottom_tab == SelectedBottomTab::Log,
    ensures
        v.key_step(pressed(Key::Up, shift)) == (
            AppView {
                log_scroll_position: if v.log_scroll_position > 0 {
                    (v.log_scroll_position - 1) as usize
                } else {
                    0usize
                },
                ..v
            },
            None::<EffectView>,
        ),
        v.log.len() > 0 ==> v.key_step(pressed(Key::Down, shift)) == (
            AppView {
                log_scroll_position: if v.log_scroll_position + 1 < v.log.len() - 1 {
                    (v.log_scroll_position + 1) as usize
                } else {
                    (v.log.len() - 1) as usize
                },
                ..v
            },
            None::<EffectView>,
        ),
        v.log.len() == 0 ==> v.key_step(pressed(Key::Down, shift)) == (v, None::<EffectView>),
        v.key_step(pressed(Key::Char('c'), shift)) == (
            AppView { log: Seq::empty(), log_scroll_position: 0, ..v },
            None::<EffectView>,
        ),
{
}

/// On the help pages, `?` goes back to the main view, Tab turns the page and
/// Esc quits.
pub proof fn lemma_help_keys(v: AppView, shift: bool)
    requires
        v.app_mode == AppMode::Help,
    ensures
        v.key_step(pressed(Key::Char('?'), shift)) == (AppView { app_mode: AppMode::Main, ..v }, None::<
            EffectView,
        >),
        v.key_step(pressed(Key::Tab, shift)) == (
            AppView { help_menu_page: if v.help_menu_page == 0 { 1u8 } else { 0u8 }, ..v },
            None::<EffectView>,
        ),
        v.key_step(pressed(Key::Esc, shift)) == (AppView { exit: true, ..v }, None::<EffectView>),
{
}

/// Enter on the TCP form hands the typed address and port over for parsing
/// when both hold text, and beeps otherwise; the state stays as it is.
pub proof fn lemma_tcp_enter(v: AppView)
    requires
        v.app_mode == AppMode::Popup(PopupType::Connection),
        v.connect_type == ConnectType::Tcp,
        v.wf(),
    ensures
        v.address_input.text().len() > 0 && v.port_input.text().len() > 0 ==> v.key_step(
            pressed(Key::Enter, false),
        ) == (v, Some(EffectView::ConnectTcp {
            address: v.address_input.text(),
            port: v.port_input.text(),
        })),
        v.address_input.text().len() == 0 || v.port_input.text().len() == 0 ==> v.key_step(
            pressed(Key::Enter, false),
        ) == (v, Some(EffectView::Beep)),
{
}

/// What a failed request tells the interface: an exception on a read of
/// holding registers breaks the link, one on any other read or on a write is
/// an error message, and a lost connection is reported lost; an answer with
/// values reports nothing.
pub proof fn lemma_failure_reports(table: SelectedTopTab, bits: Vec<bool>, words: Vec<u16>)
    ensures
        read_report_of(table, ReadReply::Exception) == Some(
            if table == SelectedTopTab::HoldingRegisters {
                LinkReport::ConnectionError
            } else {
                LinkReport::Error
            },
        ),
        read_report_of(table, ReadReply::Lost) == Some(LinkReport::ConnectionLost),
        read_report_of(table, ReadReply::Bits(bits)) is None,
        read_report_of(table, ReadReply::Words(words)) is None,
        write_report_of(WriteReply::Done) is None,
        write_report_of(WriteReply::Exception) == Some(LinkReport::Error),
        write_report_of(WriteReply::Lost) == Some(LinkReport::ConnectionLost),
        read_updates_of(table, 0, ReadReply::Exception).len() == 0,
        read_updates_of(table, 0, ReadReply::Lost).len() == 0,
{
}

/// The values read from `start` on update the cells from `start` on, one
/// each, in order, as coils for bits and as words for words.
pub proof fn lemma_read_updates(table: SelectedTopTab, start: u16, bits: Seq<bool>, words: Seq<u16>)
    requires
        start + bits.len() <= 65536,
        start + words.len() <= 65536,
    ensures
        bit_updates(table, start, bits).len() == bits.len(),
        forall|i: int| 0 <= i < bits.len() ==> #[trigger] bit_updates(table, start, bits)[i] == (
            table,
            (start + i) as u16,
            CellType::Coil(bits[i]),
        ) && (start + i) as u16 == start + i,
        word_updates(table, start, words).len() == words.len(),
        forall|i: int| 0 <= i < words.len() ==> #[trigger] word_updates(table, start, words)[i] == (
            table,
            (start + i) as u16,
            CellType::Word(words[i]),
        ) && (start + i) as u16 == start + i,
{
}

/// The next write of a batch is the first writable command from where the
/// batch stands: every command passed over cannot be written.
pub proof fn lemma_first_writable(commands: Seq<(SelectedTopTab, u16, CellType)>, from: int)
    requires
        0 <= from <= commands.len(),
    ensures
        from <= first_writable(commands, from) <= commands.len(),
        first_writable(commands, from) < commands.len() ==> write_request_of(
            commands[first_writable(commands, from)],
        ) is Some,
        forall|k: int| from <= k < first_writable(commands, from) ==> write_request_of(
            #[trigger] commands[k],
        ) is None,
    decreases commands.len() - from,
{
    if from < commands.len() && write_request_of(commands[from]) is None {
        lemma_first_writable(commands, from + 1);
    }
}

/// A value typed into the value popup becomes an off coil for 0 and an on
/// coil for anything else on a bit table, and the word itself on a register
/// table.
pub proof fn lemma_typed_values(value: u16)
    ensures
        content_for(SelectedTopTab::Coils, value) == CellType::Coil(value != 0),
        content_for(SelectedTopTab::DiscreteInputs, value) == CellType::Coil(value != 0),
        content_for(SelectedTopTab::InputRegisters, value) == CellType::Word(value),
        content_for(SelectedTopTab::HoldingRegisters, value) == CellType::Word(value),
{
}

/// What each cell operation does to a cell: a read takes the value read as
/// the content and, unless a write waits, as the value shown; queuing keeps
/// the content and waits to write the value queued; reverting drops the
/// waiting write; applying makes the queued value the content; toggling a
/// coil queues the opposite of what it shows, and leaves a word as it is.
pub proof fn lemma_cell_operations(cell: Cell, content: CellType, b: bool)
    ensures
        cell.read_as(content).original_content == content,
        cell.read_as(content).state == cell.state,
        cell.state == CellState::Normal ==> cell.read_as(content).queued_content == content,
        cell.state == CellState::Queued ==> cell.read_as(content).queued_content == cell.queued_content,
        cell.queued_with(content).state == CellState::Queued && cell.queued_with(content).queued_content
            == content && cell.queued_with(content).original_content == cell.original_content,
        cell.reverted().state == CellState::Normal && cell.reverted().queued_content
            == cell.original_content && cell.reverted().original_content == cell.original_content,
        cell.applied().state == CellState::Normal && cell.applied().original_content
            == cell.queued_content && cell.applied().queued_content == cell.queued_content,
        cell.shown() == CellType::Coil(b) ==> cell.toggled().state == CellState::Queued
            && cell.toggled().queued_content == CellType::Coil(!b) && cell.toggled().original_content
            == cell.original_content,
        cell.shown() is Word ==> cell.toggled() == cell,
        cell.state == CellState::Normal ==> cell.shown() == cell.original_content,
        cell.state == CellState::Queued ==> cell.shown() == cell.queued_content,
{
}

/// An operation on the current cell changes that cell alone and leaves the
/// cursor where it is.
pub proof fn lemma_cell_ops_touch_the_current_cell(t: TableView, c: CellType, k: int)
    requires
        t.wf(),
        0 <= k < t.cells.len(),
        k != t.table_address,
    ensures
        t.after(TableOp::QueueCurrentCell(c)).cells[t.table_address as int] == t.current().queued_with(c),
        t.after(TableOp::RevertCurrentCell).cells[t.table_address as int] == t.current().reverted(),
        t.after(TableOp::ToggleCurrentCoil).cells[t.table_address as int] == t.current().toggled(),
        t.after(TableOp::QueueCurrentCell(c)).cells[k] == t.cells[k],
        t.after(TableOp::RevertCurrentCell).cells[k] == t.cells[k],
        t.after(TableOp::ToggleCurrentCoil).cells[k] == t.cells[k],
        t.after(TableOp::QueueCurrentCell(c)).table_address == t.table_address,
        t.after(TableOp::RevertCurrentCell).table_address == t.table_address,
        t.after(TableOp::ToggleCurrentCoil).table_address == t.table_address,
        t.after(TableOp::QueueCurrentCell(c)).cells.len() == t.cells.len(),
{
}

/// Each item of a table's queue stands for a queued cell of that table:
/// same address, table, and contents.
pub proof fn lemma_queued_items_are_queued_cells(cells: Seq<Cell>, n: int, table_index: usize)
    requires
        0 <= n <= cells.len() <= 65536,
    ensures
        forall|j: int|
            0 <= j < queued_prefix(cells, n, table_index).len() ==> {
                let item = #[trigger] queued_prefix(cells, n, table_index)[j];
                &&& item.address < n
                &&& cells[item.address as int].is_queued()
                &&& item.table_index == table_index
                &&& item.table_type == cells[item.address as int].table_type
                &&& item.original_content == cells[item.address as int].original_content
                &&& item.queued_content == cells[item.address as int].queued_content
            },
    decreases n,
{
    if n > 0 {
        lemma_queued_items_are_queued_cells(cells, n - 1, table_index);
        let rest = queued_prefix(cells, n - 1, table_index);
        let q = queued_prefix(cells, n, table_index);
        assert forall|j: int| 0 <= j < rest.len() implies q[j] == #[trigger] rest[j] by {}
    }
}

/// A table's queue lists its items in rising address order, so no cell is
/// listed twice.
pub proof fn lemma_queued_items_in_address_order(cells: Seq<Cell>, n: int, table_index: usize)
    requires
        0 <= n <= cells.len() <= 65536,
    ensures
        forall|j: int, l: int|
            0 <= j < l < queued_prefix(cells, n, table_index).len() ==> queued_prefix(
                cells,
                n,
                table_index,
            )[j].address < queued_prefix(cells, n, table_index)[l].address,
    decreases n,
{
    if n > 0 {
        lemma_queued_items_in_address_order(cells, n - 1, table_index);
        lemma_queued_items_are_queued_cells(cells, n - 1, table_index);
        let rest = queued_prefix(cells, n - 1, table_index);
        let q = queued_prefix(cells, n, table_index);
        assert forall|j: int| 0 <= j < rest.len() implies q[j] == #[trigger] rest[j] by {}
        if cells[n - 1].is_queued() {
            assert forall|j: int| 0 <= j < rest.len() implies #[trigger] rest[j].address < n - 1 by {}
            assert(q[rest.len() as int].address == n - 1);
        }
    }
}

/// Every queued cell of a table is listed in its queue.
pub proof fn lemma_queued_cells_are_listed(cells: Seq<Cell>, n: int, table_index: usize, a: int)
    requires
        0 <= a < n <= cells.len() <= 65536,
        cells[a].is_queued(),
    ensures
        exists|j: int|
            0 <= j < queued_prefix(cells, n, table_index).len() && (#[trigger] queued_prefix(
                cells,
                n,
                table_index,
            )[j]).address == a,
    decreases n,
{
    let rest = queued_prefix(cells, n - 1, table_index);
    let q = queued_prefix(cells, n, table_index);
    if a == n - 1 {
        assert(q[rest.len() as int].address == a);
    } else {
        lemma_queued_cells_are_listed(cells, n - 1, table_index, a);
        let j = choose|j: int| 0 <= j < rest.len() && (#[trigger] rest[j]).address == a;
        assert(q[j] == rest[j]);
    }
}

/// Opening a link records it and forgets any other: TCP keeps the peer and
/// port and drops the serial settings, RTU the other way round; a failed link
/// is no longer connected, forgets the TCP peer and shows the message.
pub proof fn lemma_link_events(v: AppView, ipv4: Option<[u8; 4]>, port: u16, serial: String, baud_rate: u32, slave_id: u8, message: String)
    ensures
        v.connected_tcp(ipv4, port).connection_status == ConnectionStatus::Connected,
        v.connected_tcp(ipv4, port).current_ip_address == ipv4,
        v.connected_tcp(ipv4, port).current_port == Some(port),
        v.connected_tcp(ipv4, port).current_serial_port is None,
        v.connected_tcp(ipv4, port).current_baud_rate is None,
        v.connected_tcp(ipv4, port).current_slave_id is None,
        v.connected_rtu(serial, baud_rate, slave_id).connection_status == ConnectionStatus::Connected,
        v.connected_rtu(serial, baud_rate, slave_id).current_serial_port == Some(serial),
        v.connected_rtu(serial, baud_rate, slave_id).current_baud_rate == Some(baud_rate),
        v.connected_rtu(serial, baud_rate, slave_id).current_slave_id == Some(slave_id),
        v.connected_rtu(serial, baud_rate, slave_id).current_ip_address is None,
        v.connected_rtu(serial, baud_rate, slave_id).current_port is None,
        v.connection_failed(message).connection_status == ConnectionStatus::NotConnected,
        v.connection_failed(message).current_ip_address is None,
        v.connection_failed(message).current_port is None,
        v.connection_failed(message).app_mode == AppMode::Popup(PopupType::Error(message)),
        v.connected_tcp(ipv4, port).queue == v.queue && v.connected_tcp(ipv4, port).log == v.log,
{
}

/// Saving from the file-name popup: a saved file clears the name and says so,
/// an existing file asks whether to overwrite, a failure closes the popup and
/// is reported; after the overwrite question, anything but a save closes the
/// popup and is reported.
pub proof fn lemma_macro_outcomes(v: AppView)
    ensures
        v.app_mode == AppMode::Popup(PopupType::SaveMacro(SaveMacroMode::Main)) ==> {
            &&& v.macro_saved(MacroSaveOutcome::Saved).0.app_mode == AppMode::Popup(
                PopupType::SaveMacro(SaveMacroMode::FileSaved),
            )
            &&& v.macro_saved(MacroSaveOutcome::Saved).0.macro_input.len() == 0
            &&& !v.macro_saved(MacroSaveOutcome::Saved).1
            &&& v.macro_saved(MacroSaveOutcome::AlreadyExists).0.app_mode == AppMode::Popup(
                PopupType::SaveMacro(SaveMacroMode::OverwriteWarning),
            )
            &&& !v.macro_saved(MacroSaveOutcome::AlreadyExists).1
            &&& v.macro_saved(MacroSaveOutcome::Failed).0.app_mode == AppMode::Main
            &&& v.macro_saved(MacroSaveOutcome::Failed).1
        },
        v.app_mode == AppMode::Popup(PopupType::SaveMacro(SaveMacroMode::OverwriteWarning)) ==> {
            &&& v.macro_saved(MacroSaveOutcome::Saved).0.app_mode == AppMode::Popup(
                PopupType::SaveMacro(SaveMacroMode::FileSaved),
            )
            &&& !v.macro_saved(MacroSaveOutcome::Saved).1
            &&& v.macro_saved(MacroSaveOutcome::AlreadyExists).0.app_mode == AppMode::Main
            &&& v.macro_saved(MacroSaveOutcome::AlreadyExists).1
            &&& v.macro_saved(MacroSaveOutcome::Failed).0.app_mode == AppMode::Main
            &&& v.macro_saved(MacroSaveOutcome::Failed).1
        },
{
}

/// The file-name popup takes `_`, `-` and alphanumeric characters up to the
/// length limit, beeps on anything else, and Enter asks to save under the
/// name typed without overwriting.
pub proof fn lemma_macro_name_keys(v: AppView, c: char, alphanumeric: bool)
    requires
        v.app_mode == AppMode::Popup(PopupType::SaveMacro(SaveMacroMode::Main)),
    ensures
        (alphanumeric || c == '_' || c == '-') && v.macro_input.len() < FILE_NAME_LIMIT ==> v.macro_char(
            c,
            alphanumeric,
        ) == (AppView { macro_input: v.macro_input.push(c), ..v }, None::<EffectView>),
        !(alphanumeric || c == '_' || c == '-') || v.macro_input.len() >= FILE_NAME_LIMIT ==> v.macro_char(
            c,
            alphanumeric,
        ) == (v, Some(EffectView::Beep)),
        v.key_step(pressed(Key::Enter, false)) == (v, Some(EffectView::SaveMacro {
            file_name: v.macro_input,
            overwrite: false,
        })),
        v.key_step(pressed(Key::Char('_'), false)).1 == (if v.macro_input.len() < FILE_NAME_LIMIT {
            None
        } else {
            Some(EffectView::Beep)
        }),
{
}

/// The log window shows as many lines as fit, or all of them when fewer,
/// starting at the scroll position unless that would leave the last page
/// short, and always within the log.
pub proof fn lemma_log_window_fits(v: AppView, height: nat)
    requires
        v.wf(),
    ensures
        v.log.len() > 0 ==> ({
            let (w, r) = v.log_window(height);
            let total = v.log.len();
            &&& r matches Some((s, e)) && s <= e <= total && e - s == (if height <= total {
                height
            } else {
                total
            }) && w.log_scroll_position == s && (v.log_scroll_position + height <= total
                ==> s == v.log_scroll_position)
        }),
        v.log.len() == 0 ==> v.log_window(height).1 is None,
{
}

/// Editing a connection field, in terms of its text: a character of the
/// field's class goes in before the cursor, which moves past it; other
/// characters are refused; Backspace takes out the character before the
/// cursor and Delete the one under it, each refused where there is none;
/// Left and Right move the cursor by one within the text and its end.
pub proof fn lemma_field_edits(fv: FieldView, class: CharClass, c: char)
    requires
        fv.wf(class),
    ensures
        class.allows(c) ==> (fv.typed(class, c) matches Some(n) && n.text() == fv.text().take(fv.cursor)
            + seq![c] + fv.text().skip(fv.cursor) && n.cursor == fv.cursor + 1),
        !class.allows(c) ==> fv.typed(class, c) is None,
        fv.cursor > 0 ==> (fv.backspace() matches Some(n) && n.text() == fv.text().take(fv.cursor - 1)
            + fv.text().skip(fv.cursor) && n.cursor == fv.cursor - 1),
        fv.cursor == 0 ==> fv.backspace() is None,
        fv.cursor < fv.text().len() ==> (fv.delete() matches Some(n) && n.text() == fv.text().take(
            fv.cursor,
        ) + fv.text().skip(fv.cursor + 1) && n.cursor == fv.cursor),
        fv.cursor == fv.text().len() ==> fv.delete() is None,
        fv.left().text() == fv.text() && fv.left().cursor == (if fv.cursor > 0 {
            fv.cursor - 1
        } else {
            0
        }),
        fv.right().text() == fv.text() && fv.right().cursor == (if fv.cursor < fv.text().len() {
            fv.cursor + 1
        } else {
            fv.cursor
        }),
{
    if class.allows(c) {
        let n = fv.typed(class, c).unwrap();
        assert(n.text() =~= fv.text().take(fv.cursor) + seq![c] + fv.text().skip(fv.cursor));
    }
    if fv.cursor > 0 {
        let n = fv.backspace().unwrap();
        assert(n.text() =~= fv.text().take(fv.cursor - 1) + fv.text().skip(fv.cursor));
    }
    if fv.cursor < fv.text().len() {
        let n = fv.delete().unwrap();
        assert(n.text() =~= fv.text().take(fv.cursor) + fv.text().skip(fv.cursor + 1));
    }
}

/// Which characters each field takes: digits everywhere; the address field
/// also hexadecimal letters and `. : [ ] %`; the serial-port field also
/// letters and `/ . _ - \`; the number fields nothing but digits.
pub proof fn lemma_field_classes(c: char)
    ensures
        '0' <= c <= '9' ==> CharClass::Digit.allows(c) && CharClass::Address.allows(c)
            && CharClass::SerialPort.allows(c),
        !('0' <= c <= '9') ==> !CharClass::Digit.allows(c),
        CharClass::Address.allows(c) <==> ('0' <= c <= '9' || 'a' <= c <= 'f' || 'A' <= c <= 'F' || c
            == '.' || c == ':' || c == '[' || c == ']' || c == '%'),
        CharClass::SerialPort.allows(c) <==> ('0' <= c <= '9' || 'a' <= c <= 'z' || 'A' <= c <= 'Z' || c
            == '/' || c == '.' || c == '_' || c == '-' || c == '\\'),
{
}

/// Up, Down and Tab in the connection form go round its fields: address and
/// port on the TCP form; serial port, baud rate and slave id on the RTU form.
pub proof fn lemma_form_fields_cycle(v: AppView, code: Key)
    requires
        v.app_mode == AppMode::Popup(PopupType::Connection),
        code == Key::Up || code == Key::Down || code == Key::Tab,
    ensures
        ({
            let w = v.key_step(pressed(code, false));
            let f = v.connecting_popup_field;
            &&& w.1 == None::<EffectView>
            &&& w.0 == AppView { connecting_popup_field: w.0.connecting_popup_field, ..v }
            &&& v.connect_type == ConnectType::Tcp ==> w.0.connecting_popup_field == (if f
                == ConnectingField::Address {
                ConnectingField::Port
            } else {
                ConnectingField::Address
            })
            &&& v.connect_type == ConnectType::Rtu ==> w.0.connecting_popup_field == (if f
                == ConnectingField::SerialPort {
                ConnectingField::BaudRate
            } else if f == ConnectingField::BaudRate {
                ConnectingField::SlaveId
            } else {
                ConnectingField::SerialPort
            })
        }),
{
}

/// The queue tab lists the items by table, earlier tables first, and within
/// a table by rising address, keeping the items of one cell in the order they
/// came.
pub proof fn lemma_sorted_queue_order(r: Seq<QueueItem>, s: Seq<QueueItem>, t: usize, a: u16)
    requires
        stably_sorted(r, s),
    ensures
        forall|i: int, j: int|
            0 <= i < j < r.len() ==> (#[trigger] r[i]).table_index < (#[trigger] r[j]).table_index || (
            r[i].table_index == r[j].table_index && r[i].address <= r[j].address),
        r.filter(|x: QueueItem| x.table_index == t && x.address == a) == s.filter(
            |x: QueueItem| x.table_index == t && x.address == a,
        ),
{
    assert(r.filter(has_key(t, a)) == s.filter(has_key(t, a)));
    assert(has_key(t, a) == (|x: QueueItem| x.table_index == t && x.address == a));
}

/// The queue of the four tables is the items of the first table, then those
/// of the second, the third and the fourth.
pub proof fn lemma_four_tables_in_tab_order(parts: Seq<Seq<QueueItem>>)
    requires
        parts.len() == 4,
    ensures
        concat_all(parts) == parts[0] + parts[1] + parts[2] + parts[3],
{
    reveal_with_fuel(concat_all, 5);
    assert(parts.drop_last().drop_last().drop_last().drop_last() =~= Seq::<Seq<QueueItem>>::empty());
    assert(parts.drop_last().drop_last().drop_last().last() == parts[0]);
    assert(parts.drop_last().drop_last().last() == parts[1]);
    assert(parts.drop_last().last() == parts[2]);
    assert(concat_all(parts.drop_last().drop_last().drop_last()) =~= parts[0]);
}

/// The answer to a read with values brings one update per value, from the
/// first address on: coils for bits, words for words.
pub proof fn lemma_read_reply_updates(table: SelectedTopTab, start: u16, bits: Vec<bool>, words: Vec<u16>, i: int)
    requires
        start + bits@.len() <= 65536,
        start + words@.len() <= 65536,
    ensures
        read_updates_of(table, start, ReadReply::Bits(bits)).len() == bits@.len(),
        0 <= i < bits@.len() ==> read_updates_of(table, start, ReadReply::Bits(bits))[i] == (
            table,
            (start + i) as u16,
            CellType::Coil(bits@[i]),
        ),
        read_updates_of(table, start, ReadReply::Words(words)).len() == words@.len(),
        0 <= i < words@.len() ==> read_updates_of(table, start, ReadReply::Words(words))[i] == (
            table,
            (start + i) as u16,
            CellType::Word(words@[i]),
        ),
{
}

/// A reported value lands in the cell of its table and address and nowhere
/// else: that cell takes it as its content, and shows it unless a write
/// waits there.
pub proof fn lemma_one_read(v: Seq<TableView>, table: SelectedTopTab, address: u16, content: CellType, k: int, a: int)
    requires
        v.len() == 4,
        0 <= k < 4,
        0 <= a < v[k].cells.len(),
        k != table.position() || a != address,
        address < v[table.position() as int].cells.len(),
    ensures
        ({
            let w = after_reads(v, seq![(table, address, content)]);
            let i = table.position() as int;
            &&& w.len() == 4
            &&& w[i].cells[address as int].original_content == content
            &&& w[i].cells[address as int].state == v[i].cells[address as int].state
            &&& v[i].cells[address as int].state == CellState::Normal ==> w[i].cells[address as int].shown()
                == content
            &&& w[k].cells[a] == v[k].cells[a]
            &&& w[k].table_address == v[k].table_address
        }),
{
    let u = seq![(table, address, content)];
    assert(u.drop_last() =~= Seq::<(SelectedTopTab, u16, CellType)>::empty());
    assert(after_reads(v, u.drop_last()) == v);
    assert(u.last() == (table, address, content));
    let i = table.position() as int;
    let w = after_reads(v, u);
    assert(w == v.update(i, v[i].with_cell(address, v[i].cells[address as int].read_as(content))));
}

} // verus!
