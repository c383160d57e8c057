//! Conversions between strings and character vectors.

use vstd::prelude::*;

verus! {

/// Unicode `White_Space`, as `char::is_whitespace` has it.
pub open spec fn is_space(c: char) -> bool {
    ||| '\t' <= c <= '\r'
    ||| c == ' '
    ||| c == '\u{85}'
    ||| c == '\u{a0}'
    ||| c == '\u{1680}'
    ||| '\u{2000}' <= c <= '\u{200a}'
    ||| c == '\u{2028}'
    ||| c == '\u{2029}'
    ||| c == '\u{202f}'
    ||| c == '\u{205f}'
    ||| c == '\u{3000}'
}

pub fn is_space_exec(c: char) -> (r: bool)
    ensures
        r == is_space(c),
{
    ('\t' <= c && c <= '\r') || c == ' ' || c == '\u{85}' || c == '\u{a0}' || c == '\u{1680}'
        || ('\u{2000}' <= c && c <= '\u{200a}') || c == '\u{2028}' || c == '\u{2029}' || c
        == '\u{202f}' || c == '\u{205f}' || c == '\u{3000}'
}

/// Number of leading characters of `s` that are not whitespace.
pub open spec fn word_len(s: Seq<char>) -> nat
    decreases s.len(),
{
    if s.len() == 0 || is_space(s[0]) {
        0
    } else {
        1 + word_len(s.drop_first())
    }
}

pub proof fn lemma_word_len_bound(s: Seq<char>)
    ensures
        word_len(s) <= s.len(),
        s.len() > 0 && !is_space(s[0]) ==> word_len(s) > 0,
    decreases s.len(),
{
    if s.len() > 0 && !is_space(s[0]) {
        lemma_word_len_bound(s.drop_first());
    }
}

/// A scan that stopped at `i` found the end of the first word.
proof fn lemma_word_len(s: Seq<char>, i: int)
    requires
        0 <= i <= s.len(),
        forall|j: int| 0 <= j < i ==> !is_space(s[j]),
        i == s.len() || is_space(s[i]),
    ensures
        word_len(s) == i,
    decreases i,
{
    if i > 0 {
        let d = s.drop_first();
        assert forall|j: int| 0 <= j < i - 1 implies !is_space(d[j]) by {
            assert(d[j] == s[j + 1]);
        }
        if i < s.len() {
            assert(d[i - 1] == s[i]);
        }
        lemma_word_len(d, i - 1);
    }
}

/// The words of `s`: its maximal runs of non-whitespace characters, in order.
pub open spec fn words(s: Seq<char>) -> Seq<Seq<char>>
    decreases s.len(),
{
    if s.len() == 0 {
        Seq::empty()
    } else if is_space(s[0]) {
        words(s.drop_first())
    } else {
        proof {
            lemma_word_len_bound(s);
        }
        seq![s.take(word_len(s) as int)] + words(s.skip(word_len(s) as int))
    }
}

/// Splits `s` on whitespace into its non-empty words.
pub fn split_words(s: &Vec<char>) -> (r: Vec<String>)
    ensures
        r@.len() == words(s@).len(),
        forall|k: int| 0 <= k < r@.len() ==> #[trigger] r@[k]@ == words(s@)[k],
{
    let mut r: Vec<String> = Vec::new();
    let ghost done: Seq<Seq<char>> = Seq::empty();
    let mut i: usize = 0;
    assert(s@.skip(0) == s@);
    assert(done + words(s@) == words(s@));
    while i < s.len()
        invariant
            i <= s.len(),
            r@.len() == done.len(),
            forall|k: int| 0 <= k < r@.len() ==> #[trigger] r@[k]@ == done[k],
            done + words(s@.skip(i as int)) == words(s@),
        decreases s.len() - i,
    {
        let ghost rest = s@.skip(i as int);
        if is_space_exec(s[i]) {
            assert(rest.drop_first() == s@.skip(i + 1));
            i = i + 1;
        } else {
            let mut j: usize = i;
            let mut w = String::new();
            while j < s.len() && !is_space_exec(s[j])
                invariant
                    i <= j <= s.len(),
                    rest == s@.skip(i as int),
                    forall|k: int| i <= k < j ==> !is_space(s@[k]),
                    w@ == s@.subrange(i as int, j as int),
                decreases s.len() - j,
            {
                push_char(&mut w, s[j]);
                assert(s@.subrange(i as int, j + 1) == s@.subrange(i as int, j as int).push(s@[j as int]));
                j = j + 1;
            }
            proof {
                assert forall|k: int| 0 <= k < j - i implies !is_space(rest[k]) by {
                    assert(rest[k] == s@[i + k]);
                }
                if j < s.len() {
                    assert(rest[j - i] == s@[j as int]);
                }
                lemma_word_len(rest, j - i);
                assert(rest.take(j - i) == w@);
                assert(rest.skip(j - i) == s@.skip(j as int));
                assert(words(rest) == seq![w@] + words(s@.skip(j as int)));
                assert(done + words(rest) == done.push(w@) + words(s@.skip(j as int)));
                done = done.push(w@);
            }
            r.push(w);
            i = j;
        }
    }
    assert(s@.skip(i as int) == Seq::<char>::empty());
    assert(done + Seq::<Seq<char>>::empty() == done);
    r
}

/// Relies on `String::push`: appends one character to the string.
#[verifier::external_body]
pub(crate) fn push_char(s: &mut String, c: char)
    ensures
        final(s)@ == old(s)@.push(c),
{
    s.push(c);
}

/// Relies on `String::push_str`: appends `t` to the string.
#[verifier::external_body]
pub(crate) fn push_str(s: &mut String, t: &str)
    ensures
        final(s)@ == old(s)@ + t@,
{
    s.push_str(t);
}

/// The characters of `s`, in order.
pub fn chars_of(s: &str) -> (r: Vec<char>)
    ensures
        r@ == s@,
{
    let mut r: Vec<char> = Vec::new();
    for c in it: s.chars()
        invariant
            r@ == it.seq().take(it.index() as int),
            it.seq() == s@,
    {
        r.push(c);
    }
    r
}

/// A string made of the characters of `v`.
pub fn string_of(v: &Vec<char>) -> (r: String)
    ensures
        r@ == v@,
{
    let mut r = String::new();
    for i in 0..v.len()
        invariant
            r@ == v@.take(i as int),
    {
        push_char(&mut r, v[i]);
        assert(v@.take(i + 1) == v@.take(i as int).push(v@[i as int]));
    }
    assert(v@.take(v.len() as int) == v@);
    r
}

/// The character of decimal digit `d`.
pub open spec fn digit_char(d: nat) -> char {
    seq!['0', '1', '2', '3', '4', '5', '6', '7', '8', '9'][d as int]
}

/// `n` in decimal, without leading zeros.
pub open spec fn dec(n: nat) -> Seq<char>
    decreases n,
{
    if n < 10 {
        seq![digit_char(n)]
    } else {
        dec(n / 10).push(digit_char(n % 10))
    }
}

/// `n` in decimal, zero-padded to at least two digits.
pub open spec fn dec2(n: nat) -> Seq<char> {
    if n < 10 {
        seq!['0'] + dec(n)
    } else {
        dec(n)
    }
}

fn digit_exec(d: u64) -> (c: char)
    requires
        d < 10,
    ensures
        c == digit_char(d as nat),
{
    let digits = ['0', '1', '2', '3', '4', '5', '6', '7', '8', '9'];
    proof {
        assert(digits@ == seq!['0', '1', '2', '3', '4', '5', '6', '7', '8', '9']);
    }
    digits[d as usize]
}

/// Appends `n` in decimal.
pub fn push_dec(s: &mut String, n: u64)
    ensures
        final(s)@ == old(s)@ + dec(n as nat),
{
    let mut acc: Vec<char> = Vec::new();
    let mut m = n;
    while m >= 10
        invariant
            dec(n as nat) == dec(m as nat) + acc@,
        decreases m,
    {
        let c = digit_exec(m % 10);
        acc.insert(0, c);
        proof {
            assert(dec(m as nat) == dec((m / 10) as nat).push(digit_char((m % 10) as nat)));
            assert(dec((m / 10) as nat) + acc@ == dec(m as nat) + acc@.drop_first());
        }
        m = m / 10;
    }
    let c = digit_exec(m);
    acc.insert(0, c);
    assert(acc@ == seq![digit_char(m as nat)] + acc@.drop_first());
    for i in 0..acc.len()
        invariant
            s@ == old(s)@ + acc@.take(i as int),
            acc@ == dec(n as nat),
    {
        push_char(s, acc[i]);
        assert(acc@.take(i + 1) == acc@.take(i as int).push(acc@[i as int]));
    }
    assert(acc@.take(acc.len() as int) == acc@);
}

/// Appends `n` in decimal, zero-padded to at least two digits.
pub fn push_dec2(s: &mut String, n: u64)
    ensures
        final(s)@ == old(s)@ + dec2(n as nat),
{
    if n < 10 {
        push_char(s, '0');
        push_dec(s, n);
        assert(old(s)@.push('0') + dec(n as nat) == old(s)@ + (seq!['0'] + dec(n as nat)));
    } else {
        push_dec(s, n);
    }
}

/// The number that the decimal digits `s` spell.
pub open spec fn value_of(s: Seq<char>) -> nat
    decreases s.len(),
{
    if s.len() == 0 {
        0
    } else {
        value_of(s.drop_last()) * 10 + digit_value(s.last())
    }
}

pub open spec fn digit_value(c: char) -> nat {
    (c as u32 - '0' as u32) as nat
}

pub open spec fn all_digits(s: Seq<char>) -> bool {
    forall|i: int| 0 <= i < s.len() ==> '0' <= #[trigger] s[i] <= '9'
}

/// The number that the digits `s[from..to]` spell, if it fits in a `u32`.
pub fn parse_u32(s: &Vec<char>, from: usize, to: usize) -> (r: Option<u32>)
    requires
        from <= to <= s@.len(),
        all_digits(s@.subrange(from as int, to as int)),
    ensures
        r is Some <==> value_of(s@.subrange(from as int, to as int)) <= u32::MAX,
        r matches Some(v) ==> v == value_of(s@.subrange(from as int, to as int)),
{
    let mut v: u64 = 0;
    let mut i = from;
    while i < to
        invariant
            from <= i <= to <= s@.len(),
            all_digits(s@.subrange(from as int, to as int)),
            v == value_of(s@.subrange(from as int, i as int)),
            v <= u32::MAX,
        decreases to - i,
    {
        let ghost t = s@.subrange(from as int, i + 1);
        assert(t.drop_last() == s@.subrange(from as int, i as int));
        assert(t.last() == s@[i as int]);
        assert(s@[i as int] == s@.subrange(from as int, to as int)[i - from]);
        let d = (s[i] as u32 - '0' as u32) as u64;
        let nv = v * 10 + d;
        if nv > u32::MAX as u64 {
            proof {
                lemma_value_of_grows(s@.subrange(from as int, to as int), i + 1 - from);
                assert(s@.subrange(from as int, to as int).take(i + 1 - from) == t);
            }
            return None;
        }
        v = nv;
        i = i + 1;
    }
    Some(v as u32)
}

/// A longer run of digits spells at least as large a number as its start.
proof fn lemma_value_of_grows(s: Seq<char>, k: int)
    requires
        0 <= k <= s.len(),
        all_digits(s),
    ensures
        value_of(s.take(k)) <= value_of(s),
    decreases s.len() - k,
{
    if k < s.len() {
        lemma_value_of_grows(s, k + 1);
        let t = s.take(k + 1);
        assert(t.drop_last() == s.take(k));
        assert(t.last() == s[k]);
    } else {
        assert(s.take(k) == s);
    }
}

} // verus!
