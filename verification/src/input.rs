//! The text fields of the popups, and the reading of the numbers typed into them.
//!
//! A connection field always ends in one blank that the cursor can stand on
//! but that can never be erased; characters are inserted in front of the
//! cursor. A short field (the value, address and file name popups) only grows
//! and shrinks at its end, and its cursor is always its length.

use vstd::prelude::*;

verus! {

/// The kinds of character that a connection field accepts.
#[derive(Clone, Copy, Debug, PartialEq, Eq, Structural)]
pub enum CharClass {
    /// Characters of an IPv4 or IPv6 address: hex digits, `.`, `:`, `[`, `]`, `%`.
    Address,
    /// ASCII decimal digits.
    Digit,
    /// Characters of a serial port path, such as `/dev/ttyUSB0` or `COM1`.
    SerialPort,
}

pub open spec fn is_digit(c: char) -> bool {
    '0' <= c && c <= '9'
}

pub open spec fn is_address_char(c: char) -> bool {
    ||| ('A' <= c && c <= 'F')
    ||| ('a' <= c && c <= 'f')
    ||| is_digit(c)
    ||| c == '.'
    ||| c == ':'
    ||| c == '['
    ||| c == ']'
    ||| c == '%'
}

pub open spec fn is_serial_port_char(c: char) -> bool {
    ||| ('A' <= c && c <= 'Z')
    ||| ('a' <= c && c <= 'z')
    ||| is_digit(c)
    ||| c == '/'
    ||| c == '.'
    ||| c == '_'
    ||| c == '-'
    ||| c == '\\'
}

impl CharClass {
    pub open spec fn allows(self, c: char) -> bool {
        match self {
            CharClass::Address => is_address_char(c),
            CharClass::Digit => is_digit(c),
            CharClass::SerialPort => is_serial_port_char(c),
        }
    }

    pub fn accepts(self, c: char) -> (r: bool)
        ensures
            r == self.allows(c),
    {
        match self {
            CharClass::Address => {
                ('A' <= c && c <= 'F') || ('a' <= c && c <= 'f') || ('0' <= c && c <= '9') || c
                    == '.' || c == ':' || c == '[' || c == ']' || c == '%'
            },
            CharClass::Digit => '0' <= c && c <= '9',
            CharClass::SerialPort => {
                ('A' <= c && c <= 'Z') || ('a' <= c && c <= 'z') || ('0' <= c && c <= '9') || c
                    == '/' || c == '.' || c == '_' || c == '-' || c == '\\'
            },
        }
    }
}

/// What a connection field holds: its characters (ending in the blank) and its cursor.
pub struct FieldView {
    pub chars: Seq<char>,
    pub cursor: int,
}

impl FieldView {
    /// The empty field: the blank alone, with the cursor on it.
    pub open spec fn empty() -> FieldView {
        FieldView { chars: seq![' '], cursor: 0 }
    }

    /// The field holds at least the final blank, the cursor stands on a
    /// character of it, and every character before the blank is of the class.
    pub open spec fn wf(self, class: CharClass) -> bool {
        &&& self.chars.len() >= 1
        &&& self.chars.last() == ' '
        &&& 0 <= self.cursor < self.chars.len()
        &&& forall|i: int| 0 <= i < self.chars.len() - 1 ==> class.allows(#[trigger] self.chars[i])
    }

    /// The typed text: everything before the final blank.
    pub open spec fn text(self) -> Seq<char> {
        self.chars.drop_last()
    }

    /// Backspace erases the character before the cursor; `None` where there is none (a beep).
    pub open spec fn backspace(self) -> Option<FieldView> {
        if self.cursor > 0 {
            Some(FieldView { chars: self.chars.remove(self.cursor - 1), cursor: self.cursor - 1 })
        } else {
            None
        }
    }

    /// Delete erases the character under the cursor, but never the final blank.
    pub open spec fn delete(self) -> Option<FieldView> {
        if self.cursor < self.chars.len() - 1 {
            Some(FieldView { chars: self.chars.remove(self.cursor), cursor: self.cursor })
        } else {
            None
        }
    }

    pub open spec fn left(self) -> FieldView {
        FieldView {
            cursor: if self.cursor > 0 {
                self.cursor - 1
            } else {
                0
            },
            ..self
        }
    }

    pub open spec fn right(self) -> FieldView {
        FieldView {
            cursor: if self.cursor < self.chars.len() - 1 {
                self.cursor + 1
            } else {
                self.cursor
            },
            ..self
        }
    }

    /// Typing a character of the class inserts it before the cursor; any other is refused.
    pub open spec fn typed(self, class: CharClass, c: char) -> Option<FieldView> {
        if class.allows(c) {
            Some(FieldView { chars: self.chars.insert(self.cursor, c), cursor: self.cursor + 1 })
        } else {
            None
        }
    }
}

/// Every edit of a well-formed field leaves it well-formed: the final blank
/// stays, the cursor stays on the field, and only characters of the class get in.
pub proof fn lemma_field_edits_keep_wf(fv: FieldView, class: CharClass, c: char)
    requires
        fv.wf(class),
    ensures
        fv.backspace() matches Some(n) ==> n.wf(class),
        fv.delete() matches Some(n) ==> n.wf(class),
        fv.left().wf(class),
        fv.right().wf(class),
        fv.typed(class, c) matches Some(n) ==> n.wf(class),
{
    if let Some(n) = fv.backspace() {
        assert forall|i: int| 0 <= i < n.chars.len() - 1 implies class.allows(#[trigger] n.chars[i]) by {
            if i < fv.cursor - 1 {
                assert(n.chars[i] == fv.chars[i]);
            } else {
                assert(n.chars[i] == fv.chars[i + 1]);
            }
        }
    }
    if let Some(n) = fv.delete() {
        assert forall|i: int| 0 <= i < n.chars.len() - 1 implies class.allows(#[trigger] n.chars[i]) by {
            if i < fv.cursor {
                assert(n.chars[i] == fv.chars[i]);
            } else {
                assert(n.chars[i] == fv.chars[i + 1]);
            }
        }
    }
    if let Some(n) = fv.typed(class, c) {
        assert(n.chars.last() == fv.chars.last());
        assert forall|i: int| 0 <= i < n.chars.len() - 1 implies class.allows(#[trigger] n.chars[i]) by {
            if i < fv.cursor {
                assert(n.chars[i] == fv.chars[i]);
            } else if i > fv.cursor {
                assert(n.chars[i] == fv.chars[i - 1]);
            }
        }
    }
}

/// The empty field is well-formed for every class.
pub proof fn lemma_empty_field_wf(class: CharClass)
    ensures
        FieldView::empty().wf(class),
{
}

/// A connection field of the connection popup, with the class of characters it accepts.
pub struct FieldInput {
    chars: Vec<char>,
    cursor: usize,
    class: CharClass,
}

impl View for FieldInput {
    type V = FieldView;

    closed spec fn view(&self) -> FieldView {
        FieldView { chars: self.chars@, cursor: self.cursor as int }
    }
}

impl FieldInput {
    /// The class of characters that the field accepts.
    pub closed spec fn char_class(self) -> CharClass {
        self.class
    }

    /// The field is well-formed for its class.
    pub open spec fn wf(self) -> bool {
        self@.wf(self.char_class())
    }

    /// An empty field for characters of the class.
    pub fn new(class: CharClass) -> (r: Self)
        ensures
            r@ == FieldView::empty(),
            r.char_class() == class,
            r.wf(),
    {
        let mut chars: Vec<char> = Vec::new();
        chars.push(' ');
        let r = FieldInput { chars, cursor: 0, class };
        proof {
            assert(r@.chars =~= seq![' ']);
            lemma_empty_field_wf(class);
        }
        r
    }

    pub fn class(&self) -> (r: CharClass)
        ensures
            r == self.char_class(),
    {
        self.class
    }

    pub fn cursor(&self) -> (r: usize)
        ensures
            r == self@.cursor,
    {
        self.cursor
    }

    /// The number of characters, the final blank included.
    pub fn len(&self) -> (r: usize)
        ensures
            r == self@.chars.len(),
    {
        self.chars.len()
    }

    /// All characters, the final blank included.
    pub fn chars(&self) -> (r: &Vec<char>)
        ensures
            r@ == self@.chars,
    {
        &self.chars
    }

    /// The typed text, without the final blank.
    pub fn text(&self) -> (r: Vec<char>)
        requires
            self.wf(),
        ensures
            r@ == self@.text(),
    {
        let n = self.chars.len() - 1;
        let mut r: Vec<char> = Vec::new();
        let mut i: usize = 0;
        while i < n
            invariant
                n == self.chars@.len() - 1,
                i <= n,
                r@ == self.chars@.subrange(0, i as int),
            decreases n - i,
        {
            r.push(self.chars[i]);
            i = i + 1;
            proof {
                assert(r@ =~= self.chars@.subrange(0, i as int));
            }
        }
        proof {
            assert(r@ =~= self@.text());
        }
        r
    }

    /// The characters before the cursor, the one under it, and those after it.
    pub fn split_at_cursor(&self) -> (r: (Vec<char>, char, Vec<char>))
        requires
            self.wf(),
        ensures
            r.0@ == self@.chars.take(self@.cursor),
            r.1 == self@.chars[self@.cursor],
            r.2@ == self@.chars.skip(self@.cursor + 1),
    {
        let mut before: Vec<char> = Vec::new();
        let mut after: Vec<char> = Vec::new();
        let mut i: usize = 0;
        while i < self.chars.len()
            invariant
                self@.wf(self.class),
                i <= self.chars@.len(),
                before@ == self.chars@.take(if i <= self.cursor { i as int } else { self.cursor as int }),
                after@ == (if i <= self.cursor + 1 {
                    Seq::<char>::empty()
                } else {
                    self.chars@.subrange(self.cursor + 1, i as int)
                }),
            decreases self.chars@.len() - i,
        {
            if i < self.cursor {
                before.push(self.chars[i]);
            } else if i > self.cursor {
                after.push(self.chars[i]);
            }
            i = i + 1;
            proof {
                assert(before@ =~= self.chars@.take(if i <= self.cursor { i as int } else { self.cursor as int }));
                assert(after@ =~= (if i <= self.cursor + 1 {
                    Seq::<char>::empty()
                } else {
                    self.chars@.subrange(self.cursor + 1, i as int)
                }));
            }
        }
        proof {
            assert(after@ =~= self.chars@.skip(self.cursor + 1));
        }
        (before, self.chars[self.cursor], after)
    }

    pub fn reset(&mut self)
        ensures
            final(self)@ == FieldView::empty(),
            final(self).char_class() == old(self).char_class(),
            final(self).wf(),
    {
        *self = FieldInput::new(self.class);
    }

    /// Erases the character before the cursor; returns false where there is none.
    pub fn backspace(&mut self) -> (done: bool)
        requires
            old(self).wf(),
        ensures
            done == old(self)@.backspace() is Some,
            done ==> final(self)@ == old(self)@.backspace()->0,
            !done ==> final(self)@ == old(self)@,
            final(self).char_class() == old(self).char_class(),
            final(self).wf(),
    {
        if self.cursor > 0 {
            let ghost before = self@;
            self.chars.remove(self.cursor - 1);
            self.cursor = self.cursor.saturating_sub(1);
            proof {
                lemma_field_edits_keep_wf(before, self.class, ' ');
            }
            true
        } else {
            false
        }
    }

    /// Erases the character under the cursor; returns false where the cursor
    /// stands on the final blank.
    pub fn delete(&mut self) -> (done: bool)
        requires
            old(self).wf(),
        ensures
            done == old(self)@.delete() is Some,
            done ==> final(self)@ == old(self)@.delete()->0,
            !done ==> final(self)@ == old(self)@,
            final(self).char_class() == old(self).char_class(),
            final(self).wf(),
    {
        if self.cursor < self.chars.len() - 1 {
            let ghost before = self@;
            self.chars.remove(self.cursor);
            proof {
                lemma_field_edits_keep_wf(before, self.class, ' ');
            }
            true
        } else {
            false
        }
    }

    pub fn left(&mut self)
        requires
            old(self).wf(),
        ensures
            final(self)@ == old(self)@.left(),
            final(self).char_class() == old(self).char_class(),
            final(self).wf(),
    {
        self.cursor = self.cursor.saturating_sub(1);
    }

    pub fn right(&mut self)
        requires
            old(self).wf(),
        ensures
            final(self)@ == old(self)@.right(),
            final(self).char_class() == old(self).char_class(),
            final(self).wf(),
    {
        if self.cursor < self.chars.len() - 1 {
            self.cursor = self.cursor.saturating_add(1);
        }
    }

    /// Inserts the character before the cursor; returns false where it is not
    /// of the field's class.
    pub fn type_char(&mut self, c: char) -> (done: bool)
        requires
            old(self).wf(),
        ensures
            done == old(self)@.typed(old(self).char_class(), c) is Some,
            done ==> final(self)@ == old(self)@.typed(old(self).char_class(), c)->0,
            !done ==> final(self)@ == old(self)@,
            final(self).char_class() == old(self).char_class(),
            final(self).wf(),
    {
        if self.class.accepts(c) {
            let ghost before = self@;
            self.chars.insert(self.cursor, c);
            let grown = self.chars.len();
            assert(self.cursor < grown);
            self.cursor = self.cursor.saturating_add(1);
            proof {
                lemma_field_edits_keep_wf(before, self.class, c);
            }
            true
        } else {
            false
        }
    }
}

// ---------------------------------------------------------------------------
// Numbers typed into a field.

pub open spec fn all_digits(s: Seq<char>) -> bool {
    forall|i: int| 0 <= i < s.len() ==> is_digit(#[trigger] s[i])
}

pub open spec fn digit_value(c: char) -> nat {
    ((c as int) - ('0' as int)) as nat
}

/// The number that a string of decimal digits spells.
pub open spec fn decimal_value(s: Seq<char>) -> nat
    decreases s.len(),
{
    if s.len() == 0 {
        0
    } else {
        decimal_value(s.drop_last()) * 10 + digit_value(s.last())
    }
}

/// The number in a field: present where the field is a non-empty string of
/// decimal digits whose value does not exceed `max`.
pub open spec fn decimal_within(s: Seq<char>, max: nat) -> Option<nat> {
    if s.len() > 0 && all_digits(s) && decimal_value(s) <= max {
        Some(decimal_value(s))
    } else {
        None
    }
}

/// A prefix of a digit string spells at most what the whole string spells.
pub proof fn lemma_decimal_prefix_le(s: Seq<char>, i: int)
    requires
        all_digits(s),
        0 <= i <= s.len(),
    ensures
        decimal_value(s.take(i)) <= decimal_value(s),
    decreases s.len(),
{
    if i < s.len() {
        assert(s.drop_last().take(i) =~= s.take(i));
        assert(all_digits(s.drop_last()));
        lemma_decimal_prefix_le(s.drop_last(), i);
    } else {
        assert(s.take(i) =~= s);
    }
}

/// Reads a non-negative decimal number of at most `max`; `None` where the
/// characters are not all digits, where there are none, or where the value is larger.
pub fn parse_decimal(s: &Vec<char>, max: u32) -> (r: Option<u32>)
    ensures
        r matches Some(v) ==> decimal_within(s@, max as nat) == Some(v as nat),
        r is None ==> decimal_within(s@, max as nat) is None,
{
    if s.len() == 0 {
        return None;
    }
    let mut acc: u64 = 0;
    let mut i: usize = 0;
    while i < s.len()
        invariant
            i <= s@.len(),
            acc <= max,
            acc == decimal_value(s@.take(i as int)),
            all_digits(s@.take(i as int)),
        decreases s@.len() - i,
    {
        let c = s[i];
        if !('0' <= c && c <= '9') {
            proof {
                assert(!is_digit(s@[i as int]));
            }
            return None;
        }
        let d: u64 = (c as u64) - ('0' as u64);
        let next: u64 = acc * 10 + d;
        proof {
            let t = s@.take(i as int + 1);
            assert(t.drop_last() =~= s@.take(i as int));
            assert(t.last() == c);
            assert(all_digits(t));
        }
        if next > max as u64 {
            proof {
                let t = s@.take(i as int + 1);
                if all_digits(s@) {
                    lemma_decimal_prefix_le(s@, i as int + 1);
                }
            }
            return None;
        }
        acc = next;
        i = i + 1;
    }
    proof {
        assert(s@.take(s@.len() as int) =~= s@);
    }
    Some(acc as u32)
}

// ---------------------------------------------------------------------------
// Short fields that only change at their end.

/// A field of the value, address or file name popup; the cursor is its length.
pub struct ShortInput {
    chars: Vec<char>,
    cursor: usize,
}

impl View for ShortInput {
    type V = Seq<char>;

    closed spec fn view(&self) -> Seq<char> {
        self.chars@
    }
}

impl ShortInput {
    /// Where the cursor stands.
    pub closed spec fn cursor_position(self) -> nat {
        self.cursor as nat
    }

    /// The cursor stands after the last character.
    pub open spec fn wf(self) -> bool {
        self.cursor_position() == self@.len()
    }

    pub fn new() -> (r: Self)
        ensures
            r@ == Seq::<char>::empty(),
            r.wf(),
    {
        ShortInput { chars: Vec::new(), cursor: 0 }
    }

    pub fn cursor(&self) -> (r: usize)
        requires
            self.wf(),
        ensures
            r == self@.len(),
    {
        self.cursor
    }

    pub fn chars(&self) -> (r: &Vec<char>)
        ensures
            r@ == self@,
    {
        &self.chars
    }

    /// A copy of the characters.
    pub fn to_vec(&self) -> (r: Vec<char>)
        ensures
            r@ == self@,
    {
        let mut r: Vec<char> = Vec::new();
        let mut i: usize = 0;
        while i < self.chars.len()
            invariant
                i <= self.chars@.len(),
                r@ == self.chars@.take(i as int),
            decreases self.chars@.len() - i,
        {
            r.push(self.chars[i]);
            i = i + 1;
            proof {
                assert(r@ =~= self.chars@.take(i as int));
            }
        }
        proof {
            assert(self.chars@.take(i as int) =~= self.chars@);
        }
        r
    }

    /// The last `n` characters, or all of them where there are fewer.
    pub fn tail(&self, n: usize) -> (r: Vec<char>)
        ensures
            r@ == (if self@.len() > n {
                self@.skip(self@.len() - n)
            } else {
                self@
            }),
    {
        let len = self.chars.len();
        let start = if len > n {
            len - n
        } else {
            0
        };
        let mut r: Vec<char> = Vec::new();
        let mut i: usize = start;
        while i < len
            invariant
                len == self.chars@.len(),
                start <= i <= len,
                r@ == self.chars@.subrange(start as int, i as int),
            decreases len - i,
        {
            r.push(self.chars[i]);
            i = i + 1;
            proof {
                assert(r@ =~= self.chars@.subrange(start as int, i as int));
            }
        }
        proof {
            assert(r@ =~= (if self@.len() > n {
                self@.skip(self@.len() - n)
            } else {
                self@
            }));
        }
        r
    }

    pub fn reset(&mut self)
        ensures
            final(self)@ == Seq::<char>::empty(),
            final(self).wf(),
    {
        self.cursor = 0;
        self.chars = Vec::new();
    }

    /// Erases the last character; returns false where there is none.
    pub fn backspace(&mut self) -> (done: bool)
        requires
            old(self).wf(),
        ensures
            done == (old(self)@.len() > 0),
            done ==> final(self)@ == old(self)@.drop_last(),
            !done ==> final(self)@ == old(self)@,
            final(self).wf(),
    {
        if self.cursor > 0 {
            self.chars.pop();
            self.cursor = self.cursor.saturating_sub(1);
            true
        } else {
            false
        }
    }

    /// Appends a character where the field holds fewer than `limit` of them.
    pub fn push_within(&mut self, c: char, limit: usize) -> (done: bool)
        requires
            old(self).wf(),
        ensures
            done == (old(self)@.len() < limit),
            done ==> final(self)@ == old(self)@.push(c),
            !done ==> final(self)@ == old(self)@,
            final(self).wf(),
    {
        if self.cursor < limit {
            self.chars.push(c);
            self.cursor = self.cursor.saturating_add(1);
            true
        } else {
            false
        }
    }
}

} // verus!
