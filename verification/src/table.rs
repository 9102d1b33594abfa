//! The cell table behind a top tab: for every one of the 65536 addresses, the
//! content last read from the device and the content queued for writing; and
//! the table cursor with the page it stands on.

use vstd::prelude::*;
use crate::enums::{CellState, CellType, ModbusWriteCommand, SelectedTopTab, TOP_TAB_COUNT};
use crate::layout::column_count;
use crate::event::TableOp;
use crate::queue::QueueItem;

verus! {

/// The number of addresses of a Modbus table.
pub const ADDRESS_COUNT: usize = 65536;

/// The number of rows of a page.
pub const PAGE_ROWS: usize = 8;

/// One cell of a table.
#[derive(Clone, Copy, Debug, PartialEq, Eq, Structural)]
pub struct Cell {
    pub table_type: SelectedTopTab,
    /// The content last read from the device.
    pub original_content: CellType,
    /// The content to be written, while the cell is queued.
    pub queued_content: CellType,
    pub state: CellState,
}

/// A cell never read: off for a bit table, zero for a register table.
pub open spec fn blank_cell(table: SelectedTopTab) -> Cell {
    let content = if table.holds_bits() {
        CellType::Coil(false)
    } else {
        CellType::Word(0)
    };
    Cell { table_type: table, original_content: content, queued_content: content, state: CellState::Normal }
}

impl Cell {
    pub fn blank(table: SelectedTopTab) -> (r: Cell)
        ensures
            r == blank_cell(table),
    {
        let content = match table {
            SelectedTopTab::Coils | SelectedTopTab::DiscreteInputs => CellType::Coil(false),
            _ => CellType::Word(0),
        };
        Cell { table_type: table, original_content: content, queued_content: content, state: CellState::Normal }
    }

    /// The content the table shows: the queued one while the cell is queued.
    pub open spec fn shown(self) -> CellType {
        match self.state {
            CellState::Normal => self.original_content,
            CellState::Queued => self.queued_content,
        }
    }

    pub fn shown_content(&self) -> (r: CellType)
        ensures
            r == self.shown(),
    {
        match self.state {
            CellState::Normal => self.original_content,
            CellState::Queued => self.queued_content,
        }
    }

    /// The cell once its queued content has been written.
    pub open spec fn applied(self) -> Cell {
        Cell { original_content: self.queued_content, state: CellState::Normal, ..self }
    }

    /// The cell with its queued content dropped.
    pub open spec fn reverted(self) -> Cell {
        Cell { queued_content: self.original_content, state: CellState::Normal, ..self }
    }

    /// The cell once the device reported a content: a queued content stays queued.
    pub open spec fn read_as(self, content: CellType) -> Cell {
        Cell {
            original_content: content,
            queued_content: match self.state {
                CellState::Normal => content,
                CellState::Queued => self.queued_content,
            },
            ..self
        }
    }

    /// The cell with a content queued for writing.
    pub open spec fn queued_with(self, content: CellType) -> Cell {
        Cell { queued_content: content, state: CellState::Queued, ..self }
    }

    /// The cell with its shown coil queued as the opposite value; a word stays as it is.
    pub open spec fn toggled(self) -> Cell {
        match self.shown() {
            CellType::Coil(b) => self.queued_with(CellType::Coil(!b)),
            CellType::Word(_) => self,
        }
    }

    pub open spec fn is_queued(self) -> bool {
        self.state == CellState::Queued
    }

    /// A cell that waits for no write holds the same content in both fields.
    pub open spec fn settled(self) -> bool {
        self.state == CellState::Normal ==> self.queued_content == self.original_content
    }
}

/// What a table holds: its cells and its cursor.
#[verifier::ext_equal]
pub struct TableView {
    pub table_type: SelectedTopTab,
    pub cells: Seq<Cell>,
    pub table_address: u16,
    pub page_offset: usize,
    pub table_rows: usize,
    pub table_cols: usize,
    /// The row and column of the cursor within the page.
    pub selected: (usize, usize),
}

/// The queue items of the first `n` cells, in address order.
pub open spec fn queued_prefix(cells: Seq<Cell>, n: int, table_index: usize) -> Seq<QueueItem>
    decreases n,
{
    if n <= 0 {
        Seq::empty()
    } else {
        let rest = queued_prefix(cells, n - 1, table_index);
        let c = cells[n - 1];
        if c.is_queued() {
            rest.push(
                QueueItem {
                    table_index,
                    address: (n - 1) as u16,
                    table_type: c.table_type,
                    original_content: c.original_content,
                    queued_content: c.queued_content,
                },
            )
        } else {
            rest
        }
    }
}

impl TableView {
    pub open spec fn page_size(self) -> nat {
        (self.table_rows * self.table_cols) as nat
    }

    /// Every address has a settled cell of the table's kind, and a page has
    /// eight rows of as many columns as the kind shows.
    pub open spec fn wf(self) -> bool {
        &&& self.cells.len() == ADDRESS_COUNT
        &&& self.table_rows == PAGE_ROWS
        &&& self.table_cols == column_count(self.table_type)
        &&& forall|i: int|
            0 <= i < self.cells.len() ==> (#[trigger] self.cells[i]).table_type == self.table_type
                && self.cells[i].settled()
    }

    /// The cursor on an address: the page that holds it, and its row and column there.
    pub open spec fn at(self, address: u16) -> TableView {
        let within = (address as nat) % self.page_size();
        TableView {
            table_address: address,
            page_offset: ((address as nat) / self.page_size()) as usize,
            selected: ((within / (self.table_cols as nat)) as usize, (within % (self.table_cols as nat)) as usize),
            ..self
        }
    }

    pub open spec fn page_up_target(self) -> u16 {
        if self.table_address >= self.page_size() {
            (self.table_address - self.page_size()) as u16
        } else {
            0u16
        }
    }

    pub open spec fn page_down_target(self) -> u16 {
        if self.table_address + self.page_size() <= u16::MAX {
            (self.table_address + self.page_size()) as u16
        } else {
            u16::MAX
        }
    }

    pub open spec fn up_target(self) -> u16 {
        if self.table_address >= self.table_cols {
            (self.table_address - self.table_cols) as u16
        } else {
            0u16
        }
    }

    pub open spec fn down_target(self) -> u16 {
        if self.table_address + self.table_cols <= u16::MAX {
            (self.table_address + self.table_cols) as u16
        } else {
            u16::MAX
        }
    }

    pub open spec fn left_target(self) -> u16 {
        if self.table_address > 0 {
            (self.table_address - 1) as u16
        } else {
            0u16
        }
    }

    pub open spec fn right_target(self) -> u16 {
        if self.table_address < u16::MAX {
            (self.table_address + 1) as u16
        } else {
            u16::MAX
        }
    }

    /// The table after an operation on it.
    pub open spec fn after(self, op: TableOp) -> TableView {
        match op {
            TableOp::PageUp => self.at(self.page_up_target()),
            TableOp::MoveUp => self.at(self.up_target()),
            TableOp::PageDown => self.at(self.page_down_target()),
            TableOp::MoveDown => self.at(self.down_target()),
            TableOp::MoveLeft => self.at(self.left_target()),
            TableOp::MoveRight => self.at(self.right_target()),
            TableOp::GoToCell(a) => self.at(a),
            TableOp::QueueCurrentCell(c) => self.with_cell(self.table_address, self.current().queued_with(c)),
            TableOp::RevertCurrentCell => self.with_cell(self.table_address, self.current().reverted()),
            TableOp::ToggleCurrentCoil => self.with_cell(self.table_address, self.current().toggled()),
        }
    }

    /// Whether an operation moves the cursor by rows or pages, after which a
    /// change of page asks for the new page to be read.
    pub open spec fn moves_vertically(op: TableOp) -> bool {
        op == TableOp::PageUp || op == TableOp::MoveUp || op == TableOp::PageDown || op
            == TableOp::MoveDown
    }

    pub open spec fn with_cell(self, address: u16, c: Cell) -> TableView {
        TableView { cells: self.cells.update(address as int, c), ..self }
    }

    pub open spec fn current(self) -> Cell {
        self.cells[self.table_address as int]
    }

    /// The queued cells, in address order.
    pub open spec fn queued_items(self, table_index: usize) -> Seq<QueueItem> {
        queued_prefix(self.cells, self.cells.len() as int, table_index)
    }

    /// Every queued cell written.
    pub open spec fn all_applied(self) -> TableView {
        TableView {
            cells: Seq::new(
                self.cells.len(),
                |i: int|
                    if self.cells[i].is_queued() {
                        self.cells[i].applied()
                    } else {
                        self.cells[i]
                    },
            ),
            ..self
        }
    }
}

/// The cells and cursor of one top tab. Every one of the 65536 addresses
/// has its cell, a blank one until it is read or queued, so the queued cells
/// come out in address order by a walk over the addresses.
pub struct CellTable {
    table_type: SelectedTopTab,
    cells: Vec<Cell>,
    table_address: u16,
    page_offset: usize,
    table_rows: usize,
    table_cols: usize,
    selected: (usize, usize),
}

impl View for CellTable {
    type V = TableView;

    closed spec fn view(&self) -> TableView {
        TableView {
            table_type: self.table_type,
            cells: self.cells@,
            table_address: self.table_address,
            page_offset: self.page_offset,
            table_rows: self.table_rows,
            table_cols: self.table_cols,
            selected: self.selected,
        }
    }
}

impl CellTable {
    /// A table of blank cells with the cursor on the first address.
    pub fn new(table: SelectedTopTab) -> (r: CellTable)
        ensures
            r@.wf(),
            r@.table_type == table,
            r@.cells == Seq::new(ADDRESS_COUNT as nat, |i: int| blank_cell(table)),
            r@.table_address == 0,
            r@.page_offset == 0,
            r@.selected == (0usize, 0usize),
    {
        let blank = Cell::blank(table);
        let mut cells: Vec<Cell> = Vec::new();
        let mut i: usize = 0;
        while i < ADDRESS_COUNT
            invariant
                i <= ADDRESS_COUNT,
                blank == blank_cell(table),
                cells@ == Seq::new(i as nat, |k: int| blank_cell(table)),
            decreases ADDRESS_COUNT - i,
        {
            cells.push(blank);
            i = i + 1;
            proof {
                assert(cells@ =~= Seq::new(i as nat, |k: int| blank_cell(table)));
            }
        }
        let table_cols: usize = match table {
            SelectedTopTab::Coils | SelectedTopTab::DiscreteInputs => 16,
            _ => 8,
        };
        CellTable {
            table_type: table,
            cells,
            table_address: 0,
            page_offset: 0,
            table_rows: PAGE_ROWS,
            table_cols,
            selected: (0, 0),
        }
    }

    pub fn table_type(&self) -> (r: SelectedTopTab)
        ensures
            r == self@.table_type,
    {
        self.table_type
    }

    pub fn table_address(&self) -> (r: u16)
        ensures
            r == self@.table_address,
    {
        self.table_address
    }

    pub fn page_offset(&self) -> (r: usize)
        ensures
            r == self@.page_offset,
    {
        self.page_offset
    }

    pub fn table_rows(&self) -> (r: usize)
        ensures
            r == self@.table_rows,
    {
        self.table_rows
    }

    pub fn table_cols(&self) -> (r: usize)
        ensures
            r == self@.table_cols,
    {
        self.table_cols
    }

    /// The row and column of the cursor within its page.
    pub fn selected(&self) -> (r: (usize, usize))
        ensures
            r == self@.selected,
    {
        self.selected
    }

    pub fn page_size(&self) -> (r: usize)
        requires
            self@.wf(),
        ensures
            r == self@.page_size(),
            r > 0,
    {
        self.table_rows * self.table_cols
    }

    /// Puts the cursor on the address.
    pub fn go_to_cell(&mut self, address: u16)
        requires
            old(self)@.wf(),
        ensures
            final(self)@ == old(self)@.at(address),
            final(self)@.wf(),
    {
        let page_size = self.page_size();
        let within = (address as usize) % page_size;
        self.table_address = address;
        self.page_offset = (address as usize) / page_size;
        self.selected = (within / self.table_cols, within % self.table_cols);
    }

    /// Moves the cursor to the address; returns whether it left its page.
    fn move_to(&mut self, address: u16) -> (page_changed: bool)
        requires
            old(self)@.wf(),
        ensures
            final(self)@ == old(self)@.at(address),
            page_changed == (final(self)@.page_offset != old(self)@.page_offset),
            final(self)@.wf(),
    {
        let old_page = self.page_offset;
        self.go_to_cell(address);
        self.page_offset != old_page
    }

    /// One page up (stopping at address 0); returns whether the page changed.
    pub fn page_up(&mut self) -> (page_changed: bool)
        requires
            old(self)@.wf(),
        ensures
            final(self)@ == old(self)@.at(old(self)@.page_up_target()),
            page_changed == (final(self)@.page_offset != old(self)@.page_offset),
            final(self)@.wf(),
    {
        let step = self.page_size() as u16;
        self.move_to(self.table_address.saturating_sub(step))
    }

    /// One page down (stopping at the last address); returns whether the page changed.
    pub fn page_down(&mut self) -> (page_changed: bool)
        requires
            old(self)@.wf(),
        ensures
            final(self)@ == old(self)@.at(old(self)@.page_down_target()),
            page_changed == (final(self)@.page_offset != old(self)@.page_offset),
            final(self)@.wf(),
    {
        let step = self.page_size() as u16;
        self.move_to(self.table_address.saturating_add(step))
    }

    /// One row up (stopping at address 0); returns whether the page changed.
    pub fn move_up(&mut self) -> (page_changed: bool)
        requires
            old(self)@.wf(),
        ensures
            final(self)@ == old(self)@.at(old(self)@.up_target()),
            page_changed == (final(self)@.page_offset != old(self)@.page_offset),
            final(self)@.wf(),
    {
        let step = self.table_cols as u16;
        self.move_to(self.table_address.saturating_sub(step))
    }

    /// One row down (stopping at the last address); returns whether the page changed.
    pub fn move_down(&mut self) -> (page_changed: bool)
        requires
            old(self)@.wf(),
        ensures
            final(self)@ == old(self)@.at(old(self)@.down_target()),
            page_changed == (final(self)@.page_offset != old(self)@.page_offset),
            final(self)@.wf(),
    {
        let step = self.table_cols as u16;
        self.move_to(self.table_address.saturating_add(step))
    }

    /// One cell to the left (stopping at address 0).
    pub fn move_left(&mut self)
        requires
            old(self)@.wf(),
        ensures
            final(self)@ == old(self)@.at(old(self)@.left_target()),
            final(self)@.wf(),
    {
        self.go_to_cell(self.table_address.saturating_sub(1));
    }

    /// One cell to the right (stopping at the last address).
    pub fn move_right(&mut self)
        requires
            old(self)@.wf(),
        ensures
            final(self)@ == old(self)@.at(old(self)@.right_target()),
            final(self)@.wf(),
    {
        self.go_to_cell(self.table_address.saturating_add(1));
    }

    fn replace_cell(&mut self, address: u16, c: Cell)
        requires
            old(self)@.wf(),
            c.table_type == old(self)@.table_type,
            c.settled(),
        ensures
            final(self)@ == old(self)@.with_cell(address, c),
            final(self)@.wf(),
    {
        self.cells.set(address as usize, c);
    }

    /// The device reported a content for the cell at the address.
    pub fn set_cell(&mut self, address: u16, content: CellType)
        requires
            old(self)@.wf(),
        ensures
            final(self)@ == old(self)@.with_cell(address, old(self)@.cells[address as int].read_as(content)),
            final(self)@.wf(),
    {
        let cell = self.cells[address as usize];
        let queued_content = match cell.state {
            CellState::Normal => content,
            CellState::Queued => cell.queued_content,
        };
        self.replace_cell(address, Cell { original_content: content, queued_content, ..cell });
    }

    /// Queues a content for the cell under the cursor.
    pub fn queue_current_cell(&mut self, content: CellType)
        requires
            old(self)@.wf(),
        ensures
            final(self)@ == old(self)@.with_cell(
                old(self)@.table_address,
                old(self)@.current().queued_with(content),
            ),
            final(self)@.wf(),
    {
        let address = self.table_address;
        let cell = self.cells[address as usize];
        self.replace_cell(address, Cell { queued_content: content, state: CellState::Queued, ..cell });
    }

    /// Queues the opposite of the coil under the cursor.
    pub fn toggle_current_coil(&mut self)
        requires
            old(self)@.wf(),
        ensures
            final(self)@ == old(self)@.with_cell(old(self)@.table_address, old(self)@.current().toggled()),
            final(self)@.wf(),
    {
        let address = self.table_address;
        let cell = self.cells[address as usize];
        match cell.shown_content() {
            CellType::Coil(b) => {
                self.replace_cell(
                    address,
                    Cell { queued_content: CellType::Coil(!b), state: CellState::Queued, ..cell },
                );
            },
            CellType::Word(_) => {
                proof {
                    assert(self@.cells.update(address as int, cell) =~= self@.cells);
                }
            },
        }
    }

    /// Drops what is queued for the cell at the address.
    pub fn revert(&mut self, address: u16)
        requires
            old(self)@.wf(),
        ensures
            final(self)@ == old(self)@.with_cell(address, old(self)@.cells[address as int].reverted()),
            final(self)@.wf(),
    {
        let cell = self.cells[address as usize];
        self.replace_cell(
            address,
            Cell { queued_content: cell.original_content, state: CellState::Normal, ..cell },
        );
    }

    /// Drops what is queued for the cell under the cursor.
    pub fn revert_current_cell(&mut self)
        requires
            old(self)@.wf(),
        ensures
            final(self)@ == old(self)@.with_cell(old(self)@.table_address, old(self)@.current().reverted()),
            final(self)@.wf(),
    {
        let address = self.table_address;
        self.revert(address);
    }

    /// The queued contents were written: every queued cell takes its queued content.
    pub fn apply_queued(&mut self)
        requires
            old(self)@.wf(),
        ensures
            final(self)@ == old(self)@.all_applied(),
            final(self)@.wf(),
    {
        let ghost before = self@;
        let mut i: usize = 0;
        while i < self.cells.len()
            invariant
                self@.wf(),
                self@.table_type == before.table_type,
                self@ == (TableView { cells: self@.cells, ..before }),
                i <= self@.cells.len(),
                self@.cells.len() == before.cells.len(),
                forall|k: int| 0 <= k < i ==> #[trigger] self@.cells[k] == before.all_applied().cells[k],
                forall|k: int| i <= k < self@.cells.len() ==> #[trigger] self@.cells[k] == before.cells[k],
            decreases self@.cells.len() - i,
        {
            let cell = self.cells[i];
            assert(cell == before.cells[i as int]);
            if let CellState::Queued = cell.state {
                self.cells.set(i, Cell { original_content: cell.queued_content, state: CellState::Normal, ..cell });
            }
            assert(self@.cells[i as int] == before.all_applied().cells[i as int]);
            i = i + 1;
        }
        proof {
            assert(self@ =~= before.all_applied());
        }
    }

    /// The queued cells, in address order, as items of the table at `table_index`.
    pub fn queue_items(&self, table_index: usize) -> (r: Vec<QueueItem>)
        requires
            self@.wf(),
        ensures
            r@ == self@.queued_items(table_index),
    {
        let mut r: Vec<QueueItem> = Vec::new();
        let mut i: usize = 0;
        while i < self.cells.len()
            invariant
                self@.wf(),
                i <= self@.cells.len(),
                r@ == queued_prefix(self@.cells, i as int, table_index),
            decreases self@.cells.len() - i,
        {
            let c = self.cells[i];
            if let CellState::Queued = c.state {
                r.push(
                    QueueItem {
                        table_index,
                        address: i as u16,
                        table_type: c.table_type,
                        original_content: c.original_content,
                        queued_content: c.queued_content,
                    },
                );
            }
            i = i + 1;
        }
        r
    }

    /// The cells from `start` up to (not including) `end`; none when `end`
    /// comes before `start`.
    pub fn visible_data(&self, start: u16, end: u16) -> (r: Vec<Cell>)
        requires
            self@.wf(),
        ensures
            start <= end ==> r@ == self@.cells.subrange(start as int, end as int),
            start > end ==> r@.len() == 0,
    {
        let mut r: Vec<Cell> = Vec::new();
        if start > end {
            return r;
        }
        let mut i: u16 = start;
        while i < end
            invariant
                self@.wf(),
                start <= i <= end,
                r@ == self@.cells.subrange(start as int, i as int),
            decreases end - i,
        {
            r.push(self.cells[i as usize]);
            i = i + 1;
            proof {
                assert(r@ =~= self@.cells.subrange(start as int, i as int));
            }
        }
        r
    }
}

/// Every item of the queued prefix belongs to the table it was listed for.
pub proof fn lemma_queued_prefix_table(cells: Seq<Cell>, n: int, table_index: usize)
    ensures
        forall|k: int|
            0 <= k < queued_prefix(cells, n, table_index).len() ==> (#[trigger] queued_prefix(
                cells,
                n,
                table_index,
            )[k]).table_index == table_index,
    decreases n,
{
    if n > 0 {
        lemma_queued_prefix_table(cells, n - 1, table_index);
    }
}

/// The tables of the four top tabs are well-formed and stand in tab order.
pub open spec fn tables_wf(v: Seq<TableView>) -> bool {
    &&& v.len() == TOP_TAB_COUNT
    &&& forall|i: int| 0 <= i < v.len() ==> (#[trigger] v[i]).wf() && v[i].table_type.position() == i
}

/// The tables after the device reported the contents of a list of cells, in order.
pub open spec fn after_reads(v: Seq<TableView>, updates: Seq<ModbusWriteCommand>) -> Seq<TableView>
    decreases updates.len(),
{
    if updates.len() == 0 {
        v
    } else {
        let prev = after_reads(v, updates.drop_last());
        let (table, address, content) = updates.last();
        let i = table.position() as int;
        prev.update(i, prev[i].with_cell(address, prev[i].cells[address as int].read_as(content)))
    }
}

/// The cell tables of the four top tabs, in tab order.
pub struct TableSet {
    tables: Vec<CellTable>,
}

impl View for TableSet {
    type V = Seq<TableView>;

    closed spec fn view(&self) -> Seq<TableView> {
        self.tables@.map_values(|t: CellTable| t@)
    }
}

impl TableSet {
    pub open spec fn wf(&self) -> bool {
        tables_wf(self@)
    }

    /// One table of blank cells per top tab, each with its cursor on the first address.
    pub fn new() -> (r: TableSet)
        ensures
            r.wf(),
            forall|i: int|
                0 <= i < TOP_TAB_COUNT ==> {
                    &&& (#[trigger] r@[i]).cells == Seq::new(
                        ADDRESS_COUNT as nat,
                        |k: int| blank_cell(r@[i].table_type),
                    )
                    &&& r@[i].table_address == 0
                    &&& r@[i].page_offset == 0
                    &&& r@[i].selected == (0usize, 0usize)
                },
    {
        let mut tables: Vec<CellTable> = Vec::new();
        let mut i: usize = 0;
        while i < TOP_TAB_COUNT
            invariant
                i <= TOP_TAB_COUNT,
                tables@.len() == i,
                forall|k: int|
                    0 <= k < i ==> {
                        &&& (#[trigger] tables@[k])@.wf()
                        &&& tables@[k]@.table_type.position() == k
                        &&& tables@[k]@.cells == Seq::new(
                            ADDRESS_COUNT as nat,
                            |a: int| blank_cell(tables@[k]@.table_type),
                        )
                        &&& tables@[k]@.table_address == 0
                        &&& tables@[k]@.page_offset == 0
                        &&& tables@[k]@.selected == (0usize, 0usize)
                    },
            decreases TOP_TAB_COUNT - i,
        {
            let tab = match SelectedTopTab::from_repr(i) {
                Some(t) => t,
                None => SelectedTopTab::Coils,
            };
            tables.push(CellTable::new(tab));
            i = i + 1;
        }
        let r = TableSet { tables };
        proof {
            assert forall|k: int| 0 <= k < TOP_TAB_COUNT implies #[trigger] r@[k] == r.tables@[k]@ by {}
        }
        r
    }

    /// The table of a top tab.
    pub fn table(&self, tab: SelectedTopTab) -> (r: &CellTable)
        requires
            self.wf(),
        ensures
            r@ == self@[tab.position() as int],
    {
        &self.tables[tab.index()]
    }

    /// Applies a table operation to the table of a tab; returns whether a move by
    /// rows or pages left the page, which asks for the new page to be read.
    pub fn apply_op(&mut self, tab: SelectedTopTab, op: TableOp) -> (page_changed: bool)
        requires
            old(self).wf(),
        ensures
            final(self).wf(),
            final(self)@ == old(self)@.update(
                tab.position() as int,
                old(self)@[tab.position() as int].after(op),
            ),
            page_changed == (TableView::moves_vertically(op) && final(self)@[tab.position() as int].page_offset
                != old(self)@[tab.position() as int].page_offset),
    {
        let ghost before = self@;
        let i = tab.index();
        assert(self.tables@[i as int]@ == before[i as int]);
        let mut t = self.tables.remove(i);
        let page_changed = match op {
            TableOp::PageUp => t.page_up(),
            TableOp::MoveUp => t.move_up(),
            TableOp::PageDown => t.page_down(),
            TableOp::MoveDown => t.move_down(),
            TableOp::MoveLeft => {
                t.move_left();
                false
            },
            TableOp::MoveRight => {
                t.move_right();
                false
            },
            TableOp::GoToCell(address) => {
                t.go_to_cell(address);
                false
            },
            TableOp::QueueCurrentCell(content) => {
                t.queue_current_cell(content);
                false
            },
            TableOp::RevertCurrentCell => {
                t.revert_current_cell();
                false
            },
            TableOp::ToggleCurrentCoil => {
                t.toggle_current_coil();
                false
            },
        };
        self.tables.insert(i, t);
        proof {
            assert(self@ =~= before.update(i as int, before[i as int].after(op)));
        }
        page_changed
    }

    /// Takes over the contents the device reported, one update after the other.
    pub fn set_cells(&mut self, updates: &Vec<ModbusWriteCommand>)
        requires
            old(self).wf(),
        ensures
            final(self).wf(),
            final(self)@ == after_reads(old(self)@, updates@),
    {
        let ghost before = self@;
        let mut k: usize = 0;
        while k < updates.len()
            invariant
                self.wf(),
                k <= updates@.len(),
                self@ == after_reads(before, updates@.take(k as int)),
            decreases updates@.len() - k,
        {
            let (table, address, content) = updates[k];
            let i = table.index();
            let ghost prev = self@;
            assert(self.tables@[i as int]@ == prev[i as int]);
            let mut t = self.tables.remove(i);
            t.set_cell(address, content);
            self.tables.insert(i, t);
            proof {
                assert(updates@.take(k + 1).drop_last() =~= updates@.take(k as int));
                assert(self@ =~= prev.update(
                    i as int,
                    prev[i as int].with_cell(address, prev[i as int].cells[address as int].read_as(content)),
                ));
            }
            k = k + 1;
        }
        proof {
            assert(updates@.take(updates@.len() as int) =~= updates@);
        }
    }

    /// The queued contents were written: every queued cell of every table takes its queued content.
    pub fn apply_queued(&mut self)
        requires
            old(self).wf(),
        ensures
            final(self).wf(),
            final(self)@.len() == old(self)@.len(),
            forall|i: int| 0 <= i < TOP_TAB_COUNT ==> #[trigger] final(self)@[i] == old(self)@[i].all_applied(),
    {
        let ghost before = self@;
        let mut i: usize = 0;
        while i < TOP_TAB_COUNT
            invariant
                self.wf(),
                i <= TOP_TAB_COUNT,
                forall|k: int| 0 <= k < i ==> #[trigger] self@[k] == before[k].all_applied(),
                forall|k: int| i <= k < TOP_TAB_COUNT ==> #[trigger] self@[k] == before[k],
            decreases TOP_TAB_COUNT - i,
        {
            let ghost prev = self@;
            assert(self.tables@[i as int]@ == prev[i as int]);
            let mut t = self.tables.remove(i);
            t.apply_queued();
            self.tables.insert(i, t);
            proof {
                assert(self@ =~= prev.update(i as int, prev[i as int].all_applied()));
            }
            i = i + 1;
        }
    }

    /// Drops what is queued for one cell of the table at `table_index`.
    pub fn revert_item(&mut self, table_index: usize, address: u16)
        requires
            old(self).wf(),
            table_index < TOP_TAB_COUNT,
        ensures
            final(self).wf(),
            final(self)@ == old(self)@.update(
                table_index as int,
                old(self)@[table_index as int].with_cell(
                    address,
                    old(self)@[table_index as int].cells[address as int].reverted(),
                ),
            ),
    {
        let ghost before = self@;
        assert(self.tables@[table_index as int]@ == before[table_index as int]);
        let mut t = self.tables.remove(table_index);
        t.revert(address);
        self.tables.insert(table_index, t);
        proof {
            assert(self@ =~= before.update(
                table_index as int,
                before[table_index as int].with_cell(
                    address,
                    before[table_index as int].cells[address as int].reverted(),
                ),
            ));
        }
    }

    /// The queued cells of each table, in tab order and, within a table, in address order.
    pub fn queue_items(&self) -> (r: Vec<Vec<QueueItem>>)
        requires
            self.wf(),
        ensures
            r@.len() == TOP_TAB_COUNT,
            forall|i: int| 0 <= i < TOP_TAB_COUNT ==> (#[trigger] r@[i])@ == self@[i].queued_items(i as usize),
            forall|t: int, k: int|
                0 <= t < r@.len() && 0 <= k < r@[t]@.len() ==> (#[trigger] r@[t]@[k]).wf(),
    {
        let mut r: Vec<Vec<QueueItem>> = Vec::new();
        let mut i: usize = 0;
        while i < TOP_TAB_COUNT
            invariant
                self.wf(),
                i <= TOP_TAB_COUNT,
                r@.len() == i,
                forall|k: int| 0 <= k < i ==> (#[trigger] r@[k])@ == self@[k].queued_items(k as usize),
                forall|t: int, k: int|
                    0 <= t < r@.len() && 0 <= k < r@[t]@.len() ==> (#[trigger] r@[t]@[k]).wf(),
            decreases TOP_TAB_COUNT - i,
        {
            assert(self.tables@[i as int]@ == self@[i as int]);
            let items = self.tables[i].queue_items(i);
            proof {
                lemma_queued_prefix_table(self@[i as int].cells, self@[i as int].cells.len() as int, i);
            }
            r.push(items);
            i = i + 1;
        }
        r
    }
}

} // verus!
