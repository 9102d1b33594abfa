//! The geometry of the cell tables and the Modbus read that fills a page of them.

use vstd::prelude::*;
use crate::enums::{CurrentFocus, SelectedBottomTab, SelectedTopTab};

verus! {

/// The width of a cell column: three characters for a bit, seven for a word.
pub open spec fn column_width(table: SelectedTopTab) -> usize {
    if table.holds_bits() {
        3
    } else {
        7
    }
}

/// The number of cell columns: sixteen bits or eight words to a row.
pub open spec fn column_count(table: SelectedTopTab) -> usize {
    if table.holds_bits() {
        16
    } else {
        8
    }
}

/// The row height, the column width, the number of rows that fit in an area
/// of the given height inside its border, and the number of columns.
pub fn table_stats(table: SelectedTopTab, area_height: u16) -> (r: (usize, usize, usize, usize))
    ensures
        r.0 == 1,
        r.1 == column_width(table),
        r.2 == (if area_height >= 2 {
            area_height - 2
        } else {
            0
        }),
        r.3 == column_count(table),
{
    let row_height: usize = 1;
    let column_length: usize = match table {
        SelectedTopTab::Coils | SelectedTopTab::DiscreteInputs => 3,
        SelectedTopTab::InputRegisters | SelectedTopTab::HoldingRegisters => 7,
    };
    let max_rows = (area_height as usize).saturating_sub(2) / row_height;
    let max_cols: usize = match table {
        SelectedTopTab::Coils | SelectedTopTab::DiscreteInputs => 16,
        SelectedTopTab::InputRegisters | SelectedTopTab::HoldingRegisters => 8,
    };
    (row_height, column_length, max_rows, max_cols)
}

/// The first address of the page of `amount` cells that holds `address`.
pub fn page_start(address: u16, amount: u16) -> (r: u16)
    requires
        amount > 0,
    ensures
        r == address / amount * amount,
        r <= address < r + amount,
        r % amount == 0,
{
    proof {
        let q = address as int / amount as int;
        vstd::arithmetic::div_mod::lemma_fundamental_div_mod(address as int, amount as int);
        assert(amount * q == q * amount) by (nonlinear_arith);
        assert(q >= 0) by (nonlinear_arith)
            requires
                q == address as int / amount as int,
                amount > 0,
                address >= 0,
        ;
        vstd::arithmetic::div_mod::lemma_fundamental_div_mod_converse_mod(
            q * amount,
            amount as int,
            q,
            0,
        );
        assert(q * amount <= address);
    }
    address / amount * amount
}

/// The digit that names a table in a five-digit Modbus reference (0x, 1x, 3x, 4x).
pub fn reference_digit(table: SelectedTopTab) -> (d: u8)
    ensures
        d == (match table {
            SelectedTopTab::Coils => 0u8,
            SelectedTopTab::DiscreteInputs => 1u8,
            SelectedTopTab::InputRegisters => 3u8,
            SelectedTopTab::HoldingRegisters => 4u8,
        }),
{
    match table {
        SelectedTopTab::Coils => 0,
        SelectedTopTab::DiscreteInputs => 1,
        SelectedTopTab::InputRegisters => 3,
        SelectedTopTab::HoldingRegisters => 4,
    }
}

/// Which help line the footer shows under the general one: the table controls
/// when the top half is focused, else the controls of the bottom tab.
pub fn footer_hint(focus: CurrentFocus, bottom_tab: SelectedBottomTab) -> (i: usize)
    ensures
        i == (match focus {
            CurrentFocus::Top => 1usize,
            CurrentFocus::Bottom => match bottom_tab {
                SelectedBottomTab::Connection => 2usize,
                SelectedBottomTab::Queue => 3usize,
                SelectedBottomTab::Log => 6usize,
            },
        }),
{
    match focus {
        CurrentFocus::Top => 1,
        CurrentFocus::Bottom => match bottom_tab {
            SelectedBottomTab::Connection => 2,
            SelectedBottomTab::Queue => 3,
            SelectedBottomTab::Log => 6,
        },
    }
}

/// The first cell of the page shown and the cell after its last, the pages
/// being `page_size` cells long; the end stops short of the last address.
pub fn page_bounds(page_offset: usize, page_size: usize) -> (r: (usize, usize))
    requires
        page_offset * page_size + page_size <= usize::MAX,
    ensures
        r.0 == page_offset * page_size,
        r.1 == (if r.0 + page_size < 65534 {
            r.0 + page_size
        } else {
            65534
        }),
{
    proof {
        assert(page_offset * page_size <= usize::MAX) by (nonlinear_arith)
            requires
                page_offset * page_size + page_size <= usize::MAX,
                page_size >= 0,
        ;
    }
    let start = page_offset * page_size;
    let end = if start + page_size < 65534 {
        start + page_size
    } else {
        65534
    };
    (start, end)
}

} // verus!
