//! A single editable line of text with a cursor.
//!
//! The line is held as a sequence of characters and the cursor as an index
//! between them, so the cursor can only ever stand on a code-point boundary
//! of the line's UTF-8 encoding.

use vstd::prelude::*;
use vstd::utf8::*;

use crate::text::{chars_of, string_of, push_char};

verus! {

/// Characters that end the prefix of an identifier.
pub open spec fn is_delim(c: char) -> bool {
    c == '-' || c == '_'
}

/// Index of the first `-` or `_` in `t`, or `t.len()` when there is none.
pub open spec fn prefix_len(t: Seq<char>) -> nat
    decreases t.len(),
{
    if t.len() == 0 || is_delim(t[0]) {
        0
    } else {
        1 + prefix_len(t.drop_first())
    }
}

/// The part of `t` before its first delimiter.
pub open spec fn prefix_of(t: Seq<char>) -> Seq<char> {
    t.take(prefix_len(t) as int)
}

/// What `trim_prefix` takes from `other` for a line whose prefix has
/// `plen` characters: the first `other.len() - plen` characters, or nothing.
pub open spec fn trimmed(other: Seq<char>, plen: nat) -> Seq<char> {
    if other.len() >= plen {
        other.take(other.len() - plen)
    } else {
        Seq::empty()
    }
}

/// Clamps `x` into `[0, hi]`.
pub open spec fn clamp(x: int, hi: int) -> int {
    if x < 0 {
        0
    } else if x > hi {
        hi
    } else {
        x
    }
}

/// Where a seek is measured from; offsets count characters.
#[derive(Debug, Clone, Copy, PartialEq, Eq, Structural)]
pub enum SeekFrom {
    /// From the start of the line.
    Start(u64),
    /// From the end of the line.
    End(i64),
    /// From the cursor.
    Current(i64),
}

/// Where a seek lands on a line of `len` characters with the cursor at `cur`.
pub open spec fn seek_target(len: int, cur: int, to: SeekFrom) -> int {
    match to {
        SeekFrom::Start(n) => clamp(n as int, len),
        SeekFrom::End(k) => clamp(len + k, len),
        SeekFrom::Current(k) => clamp(cur + k, len),
    }
}

/// The abstract state of a line: its characters and the number of them
/// before the cursor.
pub struct EditState {
    pub text: Seq<char>,
    pub cursor: int,
}

impl EditState {
    /// An empty line.
    pub open spec fn empty() -> EditState {
        EditState { text: Seq::empty(), cursor: 0 }
    }

    /// The cursor stands within the line.
    pub open spec fn wf(self) -> bool {
        0 <= self.cursor <= self.text.len()
    }

    /// `n` more characters still leave the line's length a `usize`; an edit
    /// that would pass that is dropped.
    pub open spec fn fits(self, n: int) -> bool {
        self.text.len() + n <= usize::MAX
    }

    /// `s` inserted at the cursor, the cursor after it.
    pub open spec fn inserted(self, s: Seq<char>) -> EditState {
        if self.fits(s.len() as int) {
            EditState {
                text: self.text.take(self.cursor) + s + self.text.skip(self.cursor),
                cursor: self.cursor + s.len(),
            }
        } else {
            self
        }
    }

    /// The character at the cursor removed, if there is one.
    pub open spec fn deleted(self) -> EditState {
        if self.cursor < self.text.len() {
            EditState { text: self.text.remove(self.cursor), cursor: self.cursor }
        } else {
            self
        }
    }

    /// The character before the cursor removed, if there is one.
    pub open spec fn backspaced(self) -> EditState {
        if self.cursor > 0 {
            EditState { text: self.text.remove(self.cursor - 1), cursor: self.cursor - 1 }
        } else {
            self
        }
    }

    /// The cursor moved as `to` says, clamped to the line.
    pub open spec fn sought(self, to: SeekFrom) -> EditState {
        EditState { text: self.text, cursor: seek_target(self.text.len() as int, self.cursor, to) }
    }

    /// `trimmed(other, ..)` prepended, the cursor kept on the same character.
    pub open spec fn prefixed(self, other: Seq<char>) -> EditState {
        let p = trimmed(other, prefix_len(self.text));
        if self.fits(p.len() as int) {
            EditState { text: p + self.text, cursor: self.cursor + p.len() }
        } else {
            self
        }
    }
}

/// A line of text with a cursor.
#[derive(Debug)]
pub struct InputBuffer {
    chars: Vec<char>,
    cursor: usize,
}

impl View for InputBuffer {
    type V = EditState;

    closed spec fn view(&self) -> EditState {
        EditState { text: self.chars@, cursor: self.cursor as int }
    }
}

/// Every edit and seek takes a line whose cursor stands within it to a
/// line whose cursor stands within it.
pub proof fn lemma_edits_keep_cursor_in_line(e: EditState, s: Seq<char>, to: SeekFrom, other: Seq<char>)
    requires
        e.wf(),
    ensures
        e.inserted(s).wf(),
        e.deleted().wf(),
        e.backspaced().wf(),
        e.sought(to).wf(),
        e.prefixed(other).wf(),
{
}

/// A line whose cursor stands within it has the cursor inside its UTF-8
/// encoding and on a code-point boundary of it. With the lemma above, this
/// holds after any sequence of edits and seeks.
pub proof fn lemma_state_cursor_on_boundary(e: EditState)
    requires
        e.wf(),
    ensures
        0 <= encode_utf8(e.text.take(e.cursor)).len() <= encode_utf8(e.text).len(),
        is_char_boundary(encode_utf8(e.text), encode_utf8(e.text.take(e.cursor)).len() as int),
{
    lemma_take_on_boundary(e.text, e.cursor);
}

/// Every line has its cursor inside its UTF-8 encoding and on a code-point
/// boundary of it.
pub proof fn lemma_cursor_on_boundary(b: &InputBuffer)
    requires
        b.wf(),
    ensures
        0 <= b.byte_cursor() <= b.bytes().len(),
        is_char_boundary(b.bytes(), b.byte_cursor()),
{
    lemma_state_cursor_on_boundary(b@);
}

impl InputBuffer {
    /// The cursor never passes the end of the line.
    #[verifier::type_invariant]
    spec fn inv(&self) -> bool {
        self.cursor <= self.chars.len()
    }

    /// The characters of the line.
    pub open spec fn text(&self) -> Seq<char> {
        self@.text
    }

    /// The cursor, as a number of characters before it.
    pub open spec fn cursor(&self) -> int {
        self@.cursor
    }

    /// The cursor never passes the end of the line.
    pub open spec fn wf(&self) -> bool {
        self@.wf()
    }

    /// The line's UTF-8 encoding.
    pub open spec fn bytes(&self) -> Seq<u8> {
        encode_utf8(self.text())
    }

    /// The cursor as a byte offset into `bytes()`.
    pub open spec fn byte_cursor(&self) -> int {
        encode_utf8(self.text().take(self.cursor())).len() as int
    }

    /// An empty line with the cursor at its start.
    pub fn new() -> (r: Self)
        ensures
            r.wf(),
            r@ == EditState::empty(),
    {
        InputBuffer { chars: Vec::new(), cursor: 0 }
    }

    /// Number of characters in the line.
    pub fn len(&self) -> (r: usize)
        ensures
            r == self.text().len(),
    {
        self.chars.len()
    }

    /// Whether the line is empty.
    pub fn is_empty(&self) -> (r: bool)
        ensures
            r == (self.text().len() == 0),
    {
        self.chars.len() == 0
    }

    /// The cursor, as a number of characters before it.
    pub fn position(&self) -> (r: usize)
        ensures
            r == self.cursor(),
            self.wf(),
    {
        proof {
            use_type_invariant(&*self);
        }
        self.cursor
    }

    /// The characters of the line.
    pub fn chars(&self) -> (r: &Vec<char>)
        ensures
            r@ == self.text(),
    {
        &self.chars
    }

    /// The line as a string.
    pub fn text_string(&self) -> (r: String)
        ensures
            r@ == self.text(),
    {
        string_of(&self.chars)
    }

    /// The line as shown while editing: its text with `|` at the cursor.
    pub fn to_string(&self) -> (r: String)
        ensures
            r@ == self.text().take(self.cursor()) + seq!['|'] + self.text().skip(self.cursor()),
    {
        proof {
            use_type_invariant(&*self);
        }
        let mut r = String::new();
        let n = self.chars.len();
        let mut i: usize = 0;
        while i < n
            invariant
                n == self.text().len(),
                0 <= self.cursor() <= n,
                i <= n,
                r@ == if i <= self.cursor() {
                    self.text().take(i as int)
                } else {
                    self.text().take(self.cursor()) + seq!['|'] + self.text().subrange(
                        self.cursor(),
                        i as int,
                    )
                },
            decreases n - i,
        {
            if i == self.cursor {
                push_char(&mut r, '|');
            }
            push_char(&mut r, self.chars[i]);
            proof {
                let t = self.text();
                let c = self.cursor();
                if i < c {
                    assert(t.take(i + 1) == t.take(i as int).push(t[i as int]));
                } else {
                    assert(t.subrange(c, i + 1) == t.subrange(c, i as int).push(t[i as int]));
                    if i == c {
                        assert(t.subrange(c, c) == Seq::<char>::empty());
                    }
                }
            }
            i = i + 1;
        }
        if self.cursor == n {
            push_char(&mut r, '|');
        }
        proof {
            let t = self.text();
            let c = self.cursor();
            assert(t.take(n as int) == t);
            assert(t.skip(c) == t.subrange(c, n as int));
            if c == n {
                assert(t.skip(c) == Seq::<char>::empty());
            }
        }
        r
    }

    /// Inserts `text` at the cursor and moves the cursor past it.
    pub fn write(&mut self, text: &str)
        ensures
            final(self).wf(),
            final(self)@ == old(self)@.inserted(text@),
    {
        proof {
            use_type_invariant(&*self);
        }
        let ins = chars_of(text);
        if ins.len() > usize::MAX - self.chars.len() {
            return;
        }
        let c0 = self.cursor;
        let mut chars = self.take_chars();
        let ghost t0 = chars@;
        let mut i: usize = 0;
        while i < ins.len()
            invariant
                ins@ == text@,
                0 <= c0 <= t0.len(),
                t0.len() + ins@.len() <= usize::MAX,
                i <= ins.len(),
                chars@ == t0.take(c0 as int) + ins@.take(i as int) + t0.skip(c0 as int),
            decreases ins.len() - i,
        {
            chars.insert(c0 + i, ins[i]);
            proof {
                assert(ins@.take(i + 1) == ins@.take(i as int).push(ins@[i as int]));
                assert(chars@ == t0.take(c0 as int) + ins@.take(i + 1) + t0.skip(c0 as int));
            }
            i = i + 1;
        }
        assert(ins@.take(ins.len() as int) == ins@);
        self.chars = chars;
        self.cursor = c0 + ins.len();
    }

    /// Inserts `c` at the cursor and moves the cursor past it.
    pub fn insert_char(&mut self, c: char)
        ensures
            final(self).wf(),
            final(self)@ == old(self)@.inserted(seq![c]),
    {
        proof {
            use_type_invariant(&*self);
        }
        if self.chars.len() == usize::MAX {
            return;
        }
        let c0 = self.cursor;
        let mut chars = self.take_chars();
        let ghost t0 = chars@;
        chars.insert(c0, c);
        assert(chars@ == t0.take(c0 as int) + seq![c] + t0.skip(c0 as int));
        self.chars = chars;
        self.cursor = c0 + 1;
    }

    /// Removes the character at the cursor, if there is one; the cursor stays.
    pub fn delete(&mut self)
        ensures
            final(self).wf(),
            final(self)@ == old(self)@.deleted(),
    {
        proof {
            use_type_invariant(&*self);
        }
        if self.cursor < self.chars.len() {
            let c0 = self.cursor;
            let mut chars = self.take_chars();
            chars.remove(c0);
            self.chars = chars;
            self.cursor = c0;
        }
    }

    /// Removes the character before the cursor, if there is one, and moves
    /// the cursor back over it.
    pub fn backspace(&mut self)
        ensures
            final(self).wf(),
            final(self)@ == old(self)@.backspaced(),
    {
        proof {
            use_type_invariant(&*self);
        }
        if self.cursor > 0 {
            let c0 = self.cursor;
            let mut chars = self.take_chars();
            chars.remove(c0 - 1);
            self.chars = chars;
            self.cursor = c0 - 1;
        }
    }

    /// Moves the cursor; a target outside the line is clamped to it.
    pub fn seek(&mut self, to: SeekFrom)
        ensures
            final(self).wf(),
            final(self)@ == old(self)@.sought(to),
    {
        proof {
            use_type_invariant(&*self);
        }
        let len = self.chars.len();
        let target: i128 = match to {
            SeekFrom::Start(n) => n as i128,
            SeekFrom::End(k) => len as i128 + k as i128,
            SeekFrom::Current(k) => self.cursor as i128 + k as i128,
        };
        self.cursor = if target < 0 {
            0
        } else if target > len as i128 {
            len
        } else {
            target as usize
        };
    }

    /// Moves the characters out, leaving an empty line with the cursor at 0.
    fn take_chars(&mut self) -> (r: Vec<char>)
        ensures
            r@ == old(self).text(),
            final(self)@ == EditState::empty(),
    {
        self.cursor = 0;
        let mut r: Vec<char> = Vec::new();
        std::mem::swap(&mut r, &mut self.chars);
        r
    }

    /// Length of the prefix, the part of the line before its first `-` or `_`.
    fn prefix_length(&self) -> (r: usize)
        ensures
            r == prefix_len(self.text()),
            r <= self.text().len(),
    {
        let mut i: usize = 0;
        while i < self.chars.len() && self.chars[i] != '-' && self.chars[i] != '_'
            invariant
                i <= self.chars.len(),
                forall|j: int| 0 <= j < i ==> !is_delim(self.chars@[j]),
            decreases self.chars.len() - i,
        {
            i = i + 1;
        }
        proof {
            lemma_prefix_len(self.chars@, i as int);
        }
        i
    }

    /// The part of the line before its first `-` or `_`; the whole line
    /// when it has neither.
    pub fn prefix(&self) -> (r: String)
        ensures
            r@ == prefix_of(self.text()),
    {
        let n = self.prefix_length();
        let mut r = String::new();
        for i in 0..n
            invariant
                n == prefix_len(self.text()),
                n <= self.chars.len(),
                r@ == self.chars@.take(i as int),
        {
            push_char(&mut r, self.chars[i]);
            assert(self.chars@.take(i + 1) == self.chars@.take(i as int).push(self.chars@[i as int]));
        }
        r
    }

    /// The start of `other` left after taking off as many characters as
    /// this line's prefix has; empty when `other` is shorter than that.
    pub fn trim_prefix<'o>(&self, other: &'o str) -> (r: &'o str)
        ensures
            r@ == trimmed(other@, prefix_len(self.text())),
    {
        let plen = self.prefix_length();
        let olen = other.unicode_len();
        if olen >= plen {
            other.substring_char(0, olen - plen)
        } else {
            proof {
                reveal_strlit("");
            }
            ""
        }
    }

    /// Prepends `trim_prefix(other)` to the line, keeping the cursor on the
    /// same character.
    pub fn apply_prefix(&mut self, other: &str)
        ensures
            final(self).wf(),
            final(self)@ == old(self)@.prefixed(other@),
    {
        proof {
            use_type_invariant(&*self);
        }
        let prepend = self.trim_prefix(other);
        let ins = chars_of(prepend);
        if ins.len() > usize::MAX - self.chars.len() {
            return;
        }
        let c0 = self.cursor;
        let mut chars = self.take_chars();
        let ghost t0 = chars@;
        let mut i: usize = 0;
        while i < ins.len()
            invariant
                t0.len() + ins@.len() <= usize::MAX,
                0 <= c0 <= t0.len(),
                i <= ins.len(),
                chars@ == ins@.take(i as int) + t0,
            decreases ins.len() - i,
        {
            chars.insert(i, ins[i]);
            proof {
                assert(ins@.take(i + 1) == ins@.take(i as int).push(ins@[i as int]));
                assert(chars@ == ins@.take(i + 1) + t0);
            }
            i = i + 1;
        }
        assert(ins@.take(ins.len() as int) == ins@);
        self.chars = chars;
        self.cursor = c0 + ins.len();
    }
}

/// Cutting a character sequence after `c` characters cuts its UTF-8
/// encoding on a code-point boundary.
proof fn lemma_take_on_boundary(t: Seq<char>, c: int)
    requires
        0 <= c <= t.len(),
    ensures
        encode_utf8(t.take(c)).len() <= encode_utf8(t).len(),
        is_char_boundary(encode_utf8(t), encode_utf8(t.take(c)).len() as int),
    decreases c,
{
    let bytes = encode_utf8(t);
    encode_utf8_valid_utf8(t);
    if c == 0 {
        assert(t.take(0) == Seq::<char>::empty());
    } else {
        let rest = t.drop_first();
        let head = encode_scalar(t[0] as u32);
        assert(t.take(c).drop_first() == rest.take(c - 1));
        assert(t.take(c)[0] == t[0]);
        assert(encode_utf8(t.take(c)) == head + encode_utf8(rest.take(c - 1)));
        assert(bytes == head + encode_utf8(rest));
        lemma_take_on_boundary(rest, c - 1);
        encode_utf8_first_scalar(t);
        assert(pop_first_scalar(bytes) == encode_utf8(rest));
    }
}

/// A delimiter-free start adds its length to the prefix.
proof fn lemma_prefix_len_concat(p: Seq<char>, t: Seq<char>)
    requires
        forall|j: int| 0 <= j < p.len() ==> !is_delim(p[j]),
    ensures
        prefix_len(p + t) == p.len() + prefix_len(t),
    decreases p.len(),
{
    if p.len() > 0 {
        let q = p.drop_first();
        assert((p + t).drop_first() == q + t);
        assert((p + t)[0] == p[0]);
        assert forall|j: int| 0 <= j < q.len() implies !is_delim(q[j]) by {
            assert(q[j] == p[j + 1]);
        }
        lemma_prefix_len_concat(q, t);
    } else {
        assert(p + t == t);
    }
}

/// Applying the same prefix twice leaves the line and its cursor as
/// applying it once, provided the text that the first application prepends
/// holds no `-` or `_`. (When it does, the line's prefix becomes shorter and
/// a second application prepends again: a line `xy` with `a-bcdef` becomes
/// `a-bcdxy`, then `a-bcdea-bcdxy`.)
pub proof fn lemma_apply_prefix_idempotent(b: EditState, other: Seq<char>)
    requires
        forall|j: int|
            0 <= j < trimmed(other, prefix_len(b.text)).len() ==> !is_delim(
                #[trigger] trimmed(other, prefix_len(b.text))[j],
            ),
    ensures
        b.prefixed(other).prefixed(other) == b.prefixed(other),
{
    let p = trimmed(other, prefix_len(b.text));
    lemma_prefix_len_concat(p, b.text);
    let b1 = b.prefixed(other);
    if !b.fits(p.len() as int) {
        assert(b1 == b);
    } else if other.len() >= prefix_len(b.text) {
        assert(prefix_len(b1.text) == other.len());
        assert(trimmed(other, prefix_len(b1.text)) == Seq::<char>::empty());
    } else {
        assert(p == Seq::<char>::empty());
        assert(b1.text == b.text);
    }
    assert(Seq::<char>::empty() + b1.text == b1.text);
}

/// A scan that stopped at `i` found the first delimiter.
proof fn lemma_prefix_len(t: Seq<char>, i: int)
    requires
        0 <= i <= t.len(),
        forall|j: int| 0 <= j < i ==> !is_delim(t[j]),
        i == t.len() || is_delim(t[i]),
    ensures
        prefix_len(t) == i,
    decreases i,
{
    if i > 0 {
        let d = t.drop_first();
        assert forall|j: int| 0 <= j < i - 1 implies !is_delim(d[j]) by {
            assert(d[j] == t[j + 1]);
        }
        if i < t.len() {
            assert(d[i - 1] == t[i]);
        }
        lemma_prefix_len(d, i - 1);
    }
}

} // verus!
