//! The lines that the Modbus link writes to the log: the requests sent and
//! the values that came back, with addresses in hexadecimal and 1-based.

use vstd::prelude::*;
use crate::clock::{digit, digit_char, string_push, string_push_str};
use crate::enums::SelectedTopTab;

verus! {

/// An upper-case hexadecimal digit.
pub open spec fn hex_digit_char(d: nat) -> char {
    if d < 10 {
        digit_char(d)
    } else if d == 10 {
        'A'
    } else if d == 11 {
        'B'
    } else if d == 12 {
        'C'
    } else if d == 13 {
        'D'
    } else if d == 14 {
        'E'
    } else {
        'F'
    }
}

/// A number in upper-case hexadecimal without leading zeros.
pub open spec fn hex_text(n: nat) -> Seq<char>
    decreases n,
{
    if n < 16 {
        seq![hex_digit_char(n)]
    } else {
        hex_text(n / 16).push(hex_digit_char(n % 16))
    }
}

/// A number in upper-case hexadecimal, padded with zeros to four digits.
pub open spec fn hex4_text(n: nat) -> Seq<char> {
    let pad: nat = if n < 0x10 {
        3
    } else if n < 0x100 {
        2
    } else if n < 0x1000 {
        1
    } else {
        0
    };
    Seq::new(pad, |i: int| '0') + hex_text(n)
}

/// A number in decimal without leading zeros.
pub open spec fn decimal_text(n: nat) -> Seq<char>
    decreases n,
{
    if n < 10 {
        seq![digit_char(n)]
    } else {
        decimal_text(n / 10).push(digit_char(n % 10))
    }
}

/// The parts one after the other, with the separator between two of them.
pub open spec fn joined(parts: Seq<Seq<char>>, sep: Seq<char>) -> Seq<char>
    decreases parts.len(),
{
    if parts.len() == 0 {
        Seq::empty()
    } else if parts.len() == 1 {
        parts[0]
    } else {
        joined(parts.drop_last(), sep) + sep + parts.last()
    }
}

pub open spec fn tab_name(table: SelectedTopTab) -> Seq<char> {
    match table {
        SelectedTopTab::Coils => "Coils"@,
        SelectedTopTab::DiscreteInputs => "Discrete Inputs"@,
        SelectedTopTab::InputRegisters => "Input Registers"@,
        SelectedTopTab::HoldingRegisters => "Holding Registers"@,
    }
}

fn hex_digit(d: u32) -> (c: char)
    requires
        d < 16,
    ensures
        c == hex_digit_char(d as nat),
{
    if d < 10 {
        digit(d as u64)
    } else if d == 10 {
        'A'
    } else if d == 11 {
        'B'
    } else if d == 12 {
        'C'
    } else if d == 13 {
        'D'
    } else if d == 14 {
        'E'
    } else {
        'F'
    }
}

fn push_hex(s: &mut String, n: u32)
    ensures
        final(s)@ == old(s)@ + hex_text(n as nat),
    decreases n,
{
    if n >= 16 {
        push_hex(s, n / 16);
    }
    string_push(s, hex_digit(n % 16));
    proof {
        if n >= 16 {
            assert(final(s)@ =~= old(s)@ + hex_text(n as nat));
        } else {
            assert(final(s)@ =~= old(s)@ + hex_text(n as nat));
        }
    }
}

fn push_hex4(s: &mut String, n: u32)
    ensures
        final(s)@ == old(s)@ + hex4_text(n as nat),
{
    let ghost start = s@;
    let pad: usize = if n < 0x10 {
        3
    } else if n < 0x100 {
        2
    } else if n < 0x1000 {
        1
    } else {
        0
    };
    let mut i: usize = 0;
    while i < pad
        invariant
            i <= pad <= 3,
            s@ == start + Seq::new(i as nat, |k: int| '0'),
        decreases pad - i,
    {
        string_push(s, '0');
        i = i + 1;
        proof {
            assert(s@ =~= start + Seq::new(i as nat, |k: int| '0'));
        }
    }
    push_hex(s, n);
    proof {
        assert(s@ =~= start + hex4_text(n as nat));
    }
}

fn push_decimal(s: &mut String, n: u32)
    ensures
        final(s)@ == old(s)@ + decimal_text(n as nat),
    decreases n,
{
    if n >= 10 {
        push_decimal(s, n / 10);
    }
    string_push(s, digit((n % 10) as u64));
    proof {
        assert(final(s)@ =~= old(s)@ + decimal_text(n as nat));
    }
}

fn push_tab_name(s: &mut String, table: SelectedTopTab)
    ensures
        final(s)@ == old(s)@ + tab_name(table),
{
    string_push_str(s, table.name());
}

/// The request line of a read: `Read <table> addr=0x<first address, 1-based> count=<count>`.
pub open spec fn read_request_line(table: SelectedTopTab, start: u16, count: u16) -> Seq<char> {
    "Read "@ + tab_name(table) + " addr=0x"@ + hex4_text((start + 1) as nat) + " count="@
        + decimal_text(count as nat)
}

/// The line that announces a read of holding registers, its address 0-based.
pub open spec fn holding_read_line(start: u16, count: u16) -> Seq<char> {
    "Sending Read Holding Registers addr=0x"@ + hex4_text(start as nat) + " count="@ + decimal_text(
        count as nat,
    )
}

/// The bits read, as 1 and 0 between brackets, separated by blanks.
pub open spec fn bits_line(bits: Seq<bool>) -> Seq<char> {
    seq!['['] + joined(
        bits.map_values(
            |b: bool|
                if b {
                    seq!['1']
                } else {
                    seq!['0']
                },
        ),
        seq![' '],
    ) + seq![']']
}

/// The words read, each as `0x` and four hexadecimal digits, between brackets, separated by blanks.
pub open spec fn words_line(words: Seq<u16>) -> Seq<char> {
    seq!['['] + joined(words.map_values(|w: u16| "0x"@ + hex4_text(w as nat)), seq![' ']) + seq![']']
}

/// The holding registers read, in decimal between brackets, separated by a comma and a blank.
pub open spec fn read_result_line(words: Seq<u16>) -> Seq<char> {
    "Modbus Read Result: ["@ + joined(words.map_values(|w: u16| decimal_text(w as nat)), ", "@)
        + seq![']']
}

/// The request line of a coil write, its address 1-based and its value 1 or 0.
pub open spec fn coil_write_line(address: u16, value: bool) -> Seq<char> {
    "Write Single Coil addr=0x"@ + hex4_text((address + 1) as nat) + " val="@ + decimal_text(
        if value {
            1
        } else {
            0
        },
    )
}

/// The request line of a register write, its address 1-based.
pub open spec fn register_write_line(address: u16, value: u16) -> Seq<char> {
    "Write Single Register addr=0x"@ + hex4_text((address + 1) as nat) + " val="@ + decimal_text(
        value as nat,
    )
}

/// The line of a write the device confirmed, its address 1-based.
pub open spec fn write_done_line(address: u16, value: u16) -> Seq<char> {
    "OK addr=0x"@ + hex4_text((address + 1) as nat) + " val="@ + decimal_text(value as nat)
}

/// The request line of a read; the first address must have a successor.
pub fn read_request_text(table: SelectedTopTab, start: u16, count: u16) -> (r: String)
    requires
        start < u16::MAX,
    ensures
        r@ == read_request_line(table, start, count),
{
    let mut r = String::new();
    string_push_str(&mut r, "Read ");
    push_tab_name(&mut r, table);
    string_push_str(&mut r, " addr=0x");
    push_hex4(&mut r, start as u32 + 1);
    string_push_str(&mut r, " count=");
    push_decimal(&mut r, count as u32);
    r
}

pub fn holding_read_text(start: u16, count: u16) -> (r: String)
    ensures
        r@ == holding_read_line(start, count),
{
    let mut r = String::new();
    string_push_str(&mut r, "Sending Read Holding Registers addr=0x");
    push_hex4(&mut r, start as u32);
    string_push_str(&mut r, " count=");
    push_decimal(&mut r, count as u32);
    r
}

pub fn bits_text(bits: &Vec<bool>) -> (r: String)
    ensures
        r@ == bits_line(bits@),
{
    let ghost parts = bits@.map_values(
        |b: bool|
            if b {
                seq!['1']
            } else {
                seq!['0']
            },
    );
    let mut r = String::new();
    string_push(&mut r, '[');
    let mut i: usize = 0;
    while i < bits.len()
        invariant
            i <= bits@.len(),
            parts.len() == bits@.len(),
            parts == bits@.map_values(
                |b: bool|
                    if b {
                        seq!['1']
                    } else {
                        seq!['0']
                    },
            ),
            r@ == seq!['['] + joined(parts.take(i as int), seq![' ']),
        decreases bits@.len() - i,
    {
        if i > 0 {
            string_push(&mut r, ' ');
        }
        string_push(&mut r, if bits[i] { '1' } else { '0' });
        proof {
            assert(parts.take(i + 1).drop_last() =~= parts.take(i as int));
            assert(r@ =~= seq!['['] + joined(parts.take(i + 1), seq![' ']));
        }
        i = i + 1;
    }
    string_push(&mut r, ']');
    proof {
        assert(parts.take(i as int) =~= parts);
    }
    r
}

pub fn words_text(words: &Vec<u16>) -> (r: String)
    ensures
        r@ == words_line(words@),
{
    let ghost parts = words@.map_values(|w: u16| "0x"@ + hex4_text(w as nat));
    let mut r = String::new();
    string_push(&mut r, '[');
    let mut i: usize = 0;
    while i < words.len()
        invariant
            i <= words@.len(),
            parts == words@.map_values(|w: u16| "0x"@ + hex4_text(w as nat)),
            r@ == seq!['['] + joined(parts.take(i as int), seq![' ']),
        decreases words@.len() - i,
    {
        if i > 0 {
            string_push(&mut r, ' ');
        }
        string_push_str(&mut r, "0x");
        push_hex4(&mut r, words[i] as u32);
        proof {
            assert(parts.take(i + 1).drop_last() =~= parts.take(i as int));
            assert(r@ =~= seq!['['] + joined(parts.take(i + 1), seq![' ']));
        }
        i = i + 1;
    }
    string_push(&mut r, ']');
    proof {
        assert(parts.take(i as int) =~= parts);
    }
    r
}

pub fn read_result_text(words: &Vec<u16>) -> (r: String)
    ensures
        r@ == read_result_line(words@),
{
    let ghost parts = words@.map_values(|w: u16| decimal_text(w as nat));
    let mut r = String::new();
    string_push_str(&mut r, "Modbus Read Result: [");
    let ghost head = r@;
    let mut i: usize = 0;
    while i < words.len()
        invariant
            i <= words@.len(),
            head == "Modbus Read Result: ["@,
            parts == words@.map_values(|w: u16| decimal_text(w as nat)),
            r@ == head + joined(parts.take(i as int), ", "@),
        decreases words@.len() - i,
    {
        if i > 0 {
            string_push_str(&mut r, ", ");
        }
        push_decimal(&mut r, words[i] as u32);
        proof {
            assert(parts.take(i + 1).drop_last() =~= parts.take(i as int));
            assert(r@ =~= head + joined(parts.take(i + 1), ", "@));
        }
        i = i + 1;
    }
    string_push(&mut r, ']');
    proof {
        assert(parts.take(i as int) =~= parts);
    }
    r
}

/// The request line of a coil write; the address must have a successor.
pub fn coil_write_text(address: u16, value: bool) -> (r: String)
    requires
        address < u16::MAX,
    ensures
        r@ == coil_write_line(address, value),
{
    let mut r = String::new();
    string_push_str(&mut r, "Write Single Coil addr=0x");
    push_hex4(&mut r, address as u32 + 1);
    string_push_str(&mut r, " val=");
    push_decimal(&mut r, if value { 1 } else { 0 });
    r
}

/// The request line of a register write; the address must have a successor.
pub fn register_write_text(address: u16, value: u16) -> (r: String)
    requires
        address < u16::MAX,
    ensures
        r@ == register_write_line(address, value),
{
    let mut r = String::new();
    string_push_str(&mut r, "Write Single Register addr=0x");
    push_hex4(&mut r, address as u32 + 1);
    string_push_str(&mut r, " val=");
    push_decimal(&mut r, value as u32);
    r
}

/// The line of a confirmed write; the address must have a successor.
pub fn write_done_text(address: u16, value: u16) -> (r: String)
    requires
        address < u16::MAX,
    ensures
        r@ == write_done_line(address, value),
{
    let mut r = String::new();
    string_push_str(&mut r, "OK addr=0x");
    push_hex4(&mut r, address as u32 + 1);
    string_push_str(&mut r, " val=");
    push_decimal(&mut r, value as u32);
    r
}

} // verus!
