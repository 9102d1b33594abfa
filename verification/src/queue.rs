//! Queued cell writes, and how table cells become Modbus requests.

use vstd::prelude::*;
use crate::enums::{CellType, ModbusWriteCommand, SelectedTopTab, TOP_TAB_COUNT};

verus! {

/// A cell whose new content waits to be written to the device.
#[derive(Clone, Copy, Debug, PartialEq, Eq, Structural)]
pub struct QueueItem {
    /// The position of the cell's table among the top tabs.
    pub table_index: usize,
    /// The cell's address (0-based).
    pub address: u16,
    pub table_type: SelectedTopTab,
    /// The content last read from the device.
    pub original_content: CellType,
    /// The content to be written.
    pub queued_content: CellType,
}

impl QueueItem {
    /// The item belongs to one of the four tables.
    pub open spec fn wf(self) -> bool {
        self.table_index < TOP_TAB_COUNT
    }
}

/// The content that a typed value gives a cell: a bit table takes 0 as off and
/// anything else as on, a register table takes the value itself.
pub open spec fn content_for(table: SelectedTopTab, value: u16) -> CellType {
    if table.holds_bits() {
        CellType::Coil(value != 0)
    } else {
        CellType::Word(value)
    }
}

pub fn queued_content_for(table: SelectedTopTab, value: u16) -> (r: CellType)
    ensures
        r == content_for(table, value),
{
    match table {
        SelectedTopTab::Coils | SelectedTopTab::DiscreteInputs => {
            match value {
                0 => CellType::Coil(false),
                _ => CellType::Coil(true),
            }
        },
        SelectedTopTab::InputRegisters | SelectedTopTab::HoldingRegisters => CellType::Word(value),
    }
}

/// The write request that a queued cell becomes.
pub open spec fn write_command_of(item: QueueItem) -> ModbusWriteCommand {
    (item.table_type, item.address, item.queued_content)
}

/// The queued cells of all tables as write requests, in the order of the items.
pub fn write_commands(items: &Vec<QueueItem>) -> (r: Vec<ModbusWriteCommand>)
    ensures
        r@ == items@.map_values(|item: QueueItem| write_command_of(item)),
{
    let mut r: Vec<ModbusWriteCommand> = Vec::new();
    let mut i: usize = 0;
    while i < items.len()
        invariant
            i <= items@.len(),
            r@ == items@.take(i as int).map_values(|item: QueueItem| write_command_of(item)),
        decreases items@.len() - i,
    {
        let item = items[i];
        r.push((item.table_type, item.address, item.queued_content));
        proof {
            assert(items@.take(i as int + 1).drop_last() =~= items@.take(i as int));
            assert(r@ =~= items@.take(i as int + 1).map_values(
                |item: QueueItem| write_command_of(item),
            ));
        }
        i = i + 1;
    }
    proof {
        assert(items@.take(items@.len() as int) =~= items@);
    }
    r
}

/// The items of all tables, one table after the other.
pub open spec fn concat_all(tables: Seq<Seq<QueueItem>>) -> Seq<QueueItem>
    decreases tables.len(),
{
    if tables.len() == 0 {
        Seq::empty()
    } else {
        concat_all(tables.drop_last()) + tables.last()
    }
}

pub open spec fn views_of(tables: Seq<Vec<QueueItem>>) -> Seq<Seq<QueueItem>> {
    tables.map_values(|t: Vec<QueueItem>| t@)
}

/// Joins the queued items of each table, in table order.
pub fn concat_tables(tables: Vec<Vec<QueueItem>>) -> (r: Vec<QueueItem>)
    ensures
        r@ == concat_all(views_of(tables@)),
{
    let mut r: Vec<QueueItem> = Vec::new();
    let mut tables = tables;
    let ghost all = views_of(tables@);
    let mut i: usize = 0;
    let n = tables.len();
    while i < n
        invariant
            n == tables@.len(),
            all == views_of(tables@),
            i <= n,
            r@ == concat_all(all.take(i as int)),
        decreases n - i,
    {
        let mut next: Vec<QueueItem> = Vec::new();
        let mut j: usize = 0;
        let part = &tables[i];
        while j < part.len()
            invariant
                j <= part@.len(),
                next@ == part@.take(j as int),
            decreases part@.len() - j,
        {
            next.push(part[j]);
            j = j + 1;
            proof {
                assert(next@ =~= part@.take(j as int));
            }
        }
        proof {
            assert(next@ =~= part@);
            assert(all[i as int] == part@);
            assert(all.take(i as int + 1).drop_last() =~= all.take(i as int));
        }
        r.append(&mut next);
        i = i + 1;
    }
    proof {
        assert(all.take(n as int) =~= all);
    }
    r
}

/// The cell updates that a read of bits starting at `start` produces, one per bit.
pub open spec fn bit_updates(table: SelectedTopTab, start: u16, bits: Seq<bool>) -> Seq<
    ModbusWriteCommand,
> {
    Seq::new(bits.len(), |i: int| (table, (start + i) as u16, CellType::Coil(bits[i])))
}

/// The cell updates that a read of words starting at `start` produces, one per word.
pub open spec fn word_updates(table: SelectedTopTab, start: u16, words: Seq<u16>) -> Seq<
    ModbusWriteCommand,
> {
    Seq::new(words.len(), |i: int| (table, (start + i) as u16, CellType::Word(words[i])))
}

/// Turns the bits read from `start` on into updates of the table's cells;
/// the addresses must stay within the 16-bit address space.
pub fn bits_to_updates(table: SelectedTopTab, start: u16, bits: &Vec<bool>) -> (r: Vec<
    ModbusWriteCommand,
>)
    requires
        start + bits@.len() <= 65536,
    ensures
        r@ == bit_updates(table, start, bits@),
{
    let mut r: Vec<ModbusWriteCommand> = Vec::new();
    let mut i: usize = 0;
    while i < bits.len()
        invariant
            i <= bits@.len(),
            start + bits@.len() <= 65536,
            r@ == bit_updates(table, start, bits@.take(i as int)),
        decreases bits@.len() - i,
    {
        let address: u16 = start + (i as u16);
        r.push((table, address, CellType::Coil(bits[i])));
        i = i + 1;
        proof {
            assert(r@ =~= bit_updates(table, start, bits@.take(i as int)));
        }
    }
    proof {
        assert(bits@.take(bits@.len() as int) =~= bits@);
    }
    r
}

/// Turns the words read from `start` on into updates of the table's cells;
/// the addresses must stay within the 16-bit address space.
pub fn words_to_updates(table: SelectedTopTab, start: u16, words: &Vec<u16>) -> (r: Vec<
    ModbusWriteCommand,
>)
    requires
        start + words@.len() <= 65536,
    ensures
        r@ == word_updates(table, start, words@),
{
    let mut r: Vec<ModbusWriteCommand> = Vec::new();
    let mut i: usize = 0;
    while i < words.len()
        invariant
            i <= words@.len(),
            start + words@.len() <= 65536,
            r@ == word_updates(table, start, words@.take(i as int)),
        decreases words@.len() - i,
    {
        let address: u16 = start + (i as u16);
        r.push((table, address, CellType::Word(words[i])));
        i = i + 1;
        proof {
            assert(r@ =~= word_updates(table, start, words@.take(i as int)));
        }
    }
    proof {
        assert(words@.take(words@.len() as int) =~= words@);
    }
    r
}

/// A single write on the Modbus link.
#[derive(Clone, Copy, Debug, PartialEq, Eq, Structural)]
pub enum WriteRequest {
    /// Write Single Coil at the address.
    Coil(u16, bool),
    /// Write Single Register at the address.
    Register(u16, u16),
}

/// The write that a queued update needs: coils are written as coils, holding
/// registers as registers, and nothing else is writable.
pub open spec fn write_request_of(command: ModbusWriteCommand) -> Option<WriteRequest> {
    match (command.0, command.2) {
        (SelectedTopTab::Coils, CellType::Coil(b)) => Some(WriteRequest::Coil(command.1, b)),
        (SelectedTopTab::HoldingRegisters, CellType::Word(w)) => Some(
            WriteRequest::Register(command.1, w),
        ),
        _ => None,
    }
}

pub fn write_request(command: ModbusWriteCommand) -> (r: Option<WriteRequest>)
    ensures
        r == write_request_of(command),
{
    let (table, addr, content) = command;
    match (table, content) {
        (SelectedTopTab::Coils, CellType::Coil(b)) => Some(WriteRequest::Coil(addr, b)),
        (SelectedTopTab::HoldingRegisters, CellType::Word(w)) => Some(WriteRequest::Register(addr, w)),
        _ => None,
    }
}

// ---------------------------------------------------------------------------
// The order in which the queue tab lists the items: by table, then by address,
// items with the same table and address keeping their order.

/// `a` comes no later than `b`: an earlier table, or the same table and an address not after it.
pub open spec fn key_le(a: QueueItem, b: QueueItem) -> bool {
    a.table_index < b.table_index || (a.table_index == b.table_index && a.address <= b.address)
}

/// The items are listed by table, then by address.
pub open spec fn in_key_order(s: Seq<QueueItem>) -> bool {
    forall|i: int, j: int| 0 <= i < j < s.len() ==> key_le(#[trigger] s[i], #[trigger] s[j])
}

/// Whether an item is the cell of that table and address.
pub open spec fn has_key(table_index: usize, address: u16) -> spec_fn(QueueItem) -> bool {
    |x: QueueItem| x.table_index == table_index && x.address == address
}

/// `r` lists the items of `s` by table and then by address, and the items of
/// any one table and address come in the order they came in `s`; so `r` holds
/// exactly the items of `s`.
pub open spec fn stably_sorted(r: Seq<QueueItem>, s: Seq<QueueItem>) -> bool {
    &&& in_key_order(r)
    &&& forall|t: usize, a: u16| #[trigger] r.filter(has_key(t, a)) == s.filter(has_key(t, a))
}

proof fn lemma_insert_filter(r: Seq<QueueItem>, p: int, x: QueueItem, t: usize, a: u16)
    requires
        0 <= p <= r.len(),
        forall|j: int| 0 <= j < p ==> key_le(#[trigger] r[j], x),
        forall|j: int| p <= j < r.len() ==> !key_le(#[trigger] r[j], x),
    ensures
        r.insert(p, x).filter(has_key(t, a)) == if has_key(t, a)(x) {
            r.filter(has_key(t, a)).push(x)
        } else {
            r.filter(has_key(t, a))
        },
{
    let f = has_key(t, a);
    let front = r.take(p);
    let back = r.skip(p);
    assert(r.insert(p, x) =~= front + seq![x] + back);
    assert(r =~= front + back);
    Seq::filter_distributes_over_add(front + seq![x], back, f);
    Seq::filter_distributes_over_add(front, seq![x], f);
    Seq::filter_distributes_over_add(front, back, f);
    Seq::<QueueItem>::empty().lemma_filter_push(x, f);
    assert(seq![x] =~= Seq::<QueueItem>::empty().push(x));
    assert(Seq::<QueueItem>::empty().filter(f) =~= Seq::<QueueItem>::empty()) by {
        reveal(Seq::filter);
    }
    if f(x) {
        assert(back.all(|y: QueueItem| !f(y))) by {
            assert forall|j: int| 0 <= j < back.len() implies !f(#[trigger] back[j]) by {
                assert(back[j] == r[p + j]);
                assert(!key_le(r[p + j], x));
            }
        }
        back.lemma_all_neg_filter_empty(f);
        assert(back.filter(f) =~= Seq::<QueueItem>::empty());
        assert(r.insert(p, x).filter(f) =~= r.filter(f).push(x));
    } else {
        assert(r.insert(p, x).filter(f) =~= r.filter(f));
    }
}

/// The items listed by table and then by address, keeping the order of items
/// of the same table and address.
pub fn sort_queue_items(items: &Vec<QueueItem>) -> (r: Vec<QueueItem>)
    ensures
        stably_sorted(r@, items@),
{
    let mut r: Vec<QueueItem> = Vec::new();
    let mut i: usize = 0;
    while i < items.len()
        invariant
            i <= items@.len(),
            in_key_order(r@),
            forall|t: usize, a: u16| #[trigger]
                r@.filter(has_key(t, a)) == items@.take(i as int).filter(has_key(t, a)),
        decreases items@.len() - i,
    {
        let x = items[i];
        let mut p: usize = 0;
        while p < r.len() && (r[p].table_index < x.table_index || (r[p].table_index
            == x.table_index && r[p].address <= x.address))
            invariant
                p <= r@.len(),
                forall|j: int| 0 <= j < p ==> key_le(#[trigger] r@[j], x),
            decreases r@.len() - p,
        {
            p = p + 1;
        }
        let ghost old_r = r@;
        proof {
            assert forall|j: int| p <= j < old_r.len() implies !key_le(#[trigger] old_r[j], x) by {
                assert(!key_le(old_r[p as int], x));
                if j > p {
                    assert(key_le(old_r[p as int], old_r[j]));
                }
            }
        }
        r.insert(p, x);
        proof {
            assert(items@.take(i as int + 1) =~= items@.take(i as int).push(x));
            assert forall|t: usize, a: u16| #[trigger]
                r@.filter(has_key(t, a)) == items@.take(i as int + 1).filter(has_key(t, a)) by {
                lemma_insert_filter(old_r, p as int, x, t, a);
                items@.take(i as int).lemma_filter_push(x, has_key(t, a));
            }
            assert forall|a: int, b: int| 0 <= a < b < r@.len() implies key_le(
                #[trigger] r@[a],
                #[trigger] r@[b],
            ) by {
                if a < p && b < p {
                } else if a < p && b == p {
                } else if a < p && b > p {
                    assert(r@[b] == old_r[b - 1]);
                } else if a == p {
                    assert(r@[b] == old_r[b - 1]);
                    assert(!key_le(old_r[b - 1], x));
                } else {
                    assert(r@[a] == old_r[a - 1]);
                    assert(r@[b] == old_r[b - 1]);
                }
            }
        }
        i = i + 1;
    }
    proof {
        assert(items@.take(items@.len() as int) =~= items@);
    }
    r
}

/// Every item of a stable sort of well-formed items is well-formed: it holds
/// exactly the same items.
pub proof fn lemma_sorted_items_wf(r: Seq<QueueItem>, s: Seq<QueueItem>)
    requires
        stably_sorted(r, s),
        forall|i: int| 0 <= i < s.len() ==> (#[trigger] s[i]).wf(),
    ensures
        forall|i: int| 0 <= i < r.len() ==> (#[trigger] r[i]).wf(),
{
    assert forall|i: int| 0 <= i < r.len() implies (#[trigger] r[i]).wf() by {
        let y = r[i];
        let f = has_key(y.table_index, y.address);
        r.lemma_filter_contains(f, i);
        assert(r.filter(f) == s.filter(f));
        s.lemma_filter_contains_rev(f, y);
        let k = choose|k: int| 0 <= k < s.len() && s[k] == y;
        assert(s[k].wf());
    }
}

/// The write requests for the queued cells of each table, in table order.
pub fn table_write_commands(tables: Vec<Vec<QueueItem>>) -> (r: Vec<ModbusWriteCommand>)
    ensures
        r@ == concat_all(views_of(tables@)).map_values(|item: QueueItem| write_command_of(item)),
{
    let items = concat_tables(tables);
    write_commands(&items)
}

} // verus!
