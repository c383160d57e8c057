//! SAP WBS elements: `D-#######-#####` (hard dollar) and `S-#######-2-##`
//! (legacy).

use vstd::prelude::*;

use crate::query::{digits_at, is_digit};
use crate::text::{all_digits, chars_of, dec, dec2, parse_u32, push_char, push_dec, push_dec2, push_str, value_of};

verus! {

/// SAP WBS element for cost association.
#[derive(Debug, Clone, Copy, PartialEq, Eq, Structural)]
pub enum Wbs {
    /// Hard dollar element: project number and line id.
    Hd { project: u32, id: u32 },
    /// Legacy element: project number and shipment.
    Legacy { project: u32, shipment: u32 },
}

/// `D-`, seven digits, `-`, five digits at index `i`.
pub open spec fn hd_at(s: Seq<char>, i: int) -> bool {
    &&& 0 <= i
    &&& i + 15 <= s.len()
    &&& s[i] == 'D'
    &&& s[i + 1] == '-'
    &&& digits_at(s, i + 2, 7)
    &&& s[i + 9] == '-'
    &&& digits_at(s, i + 10, 5)
}

/// `S-`, seven digits, `-2-`, two digits at index `i`.
pub open spec fn legacy_at(s: Seq<char>, i: int) -> bool {
    &&& 0 <= i
    &&& i + 14 <= s.len()
    &&& s[i] == 'S'
    &&& s[i + 1] == '-'
    &&& digits_at(s, i + 2, 7)
    &&& s[i + 9] == '-'
    &&& s[i + 10] == '2'
    &&& s[i + 11] == '-'
    &&& digits_at(s, i + 12, 2)
}

/// `i` is where the first match of `at` in `s` starts.
pub open spec fn first_at(s: Seq<char>, i: int, hd: bool) -> bool {
    &&& if hd { hd_at(s, i) } else { legacy_at(s, i) }
    &&& forall|j: int| 0 <= j < i ==> !(if hd { hd_at(s, j) } else { legacy_at(s, j) })
}

pub open spec fn has_hd(s: Seq<char>) -> bool {
    exists|i: int| #[trigger] hd_at(s, i)
}

pub open spec fn has_legacy(s: Seq<char>) -> bool {
    exists|i: int| #[trigger] legacy_at(s, i)
}

/// The element read from the match at `i`.
pub open spec fn hd_from(s: Seq<char>, i: int) -> Wbs {
    Wbs::Hd {
        project: value_of(s.subrange(i + 2, i + 9)) as u32,
        id: value_of(s.subrange(i + 10, i + 15)) as u32,
    }
}

pub open spec fn legacy_from(s: Seq<char>, i: int) -> Wbs {
    Wbs::Legacy {
        project: value_of(s.subrange(i + 2, i + 9)) as u32,
        shipment: value_of(s.subrange(i + 12, i + 14)) as u32,
    }
}

/// `w` is what `Wbs::try_from` reads from `s`.
pub open spec fn reads_as(s: Seq<char>, w: Wbs) -> bool {
    &&& has_hd(s) || has_legacy(s)
    &&& forall|i: int| #[trigger] first_at(s, i, true) ==> w == hd_from(s, i)
    &&& !has_hd(s) ==> forall|i: int| #[trigger] first_at(s, i, false) ==> w == legacy_from(s, i)
}

/// The text of a WBS element.
pub open spec fn wbs_text(w: Wbs) -> Seq<char> {
    match w {
        Wbs::Hd { project, id } => seq!['D', '-'] + dec(project as nat) + seq!['-'] + dec(id as nat),
        Wbs::Legacy { project, shipment } => seq!['S', '-'] + dec(project as nat) + seq!['-', '2', '-']
            + dec2(shipment as nat),
    }
}

pub open spec fn wbs_error_message(s: Seq<char>) -> Seq<char> {
    "WBS element `"@ + s
        + "` does not match either of the expected patterns `D-#######-#####` or `S-#######-2-##`"@
}

/// Digits found by `digits_at` are a run of digits in the subrange sense.
proof fn lemma_digits_run(s: Seq<char>, i: int, n: int)
    requires
        digits_at(s, i, n),
        n >= 0,
    ensures
        all_digits(s.subrange(i, i + n)),
{
    assert forall|k: int| 0 <= k < n implies '0' <= #[trigger] s.subrange(i, i + n)[k] <= '9' by {
        assert(s.subrange(i, i + n)[k] == s[i + k]);
        assert(is_digit(s[i + k]));
    }
}

pub open spec fn pow10(n: nat) -> nat
    decreases n,
{
    if n == 0 {
        1
    } else {
        10 * pow10((n - 1) as nat)
    }
}

/// A run of `n` digits spells a number below `10^n`.
proof fn lemma_value_bound(s: Seq<char>)
    requires
        all_digits(s),
    ensures
        value_of(s) < pow10(s.len()),
    decreases s.len(),
{
    if s.len() > 0 {
        let t = s.drop_last();
        assert(all_digits(t)) by {
            assert forall|k: int| 0 <= k < t.len() implies '0' <= #[trigger] t[k] <= '9' by {
                assert(t[k] == s[k]);
            }
        }
        lemma_value_bound(t);
        assert('0' <= s[s.len() - 1] <= '9');
        let v = value_of(t);
        let p = pow10(t.len());
        let d = crate::text::digit_value(s.last());
        assert(d <= 9);
        assert(v * 10 + d < 10 * p) by (nonlinear_arith)
            requires
                v < p,
                d <= 9,
        ;
    }
}

fn hd_at_exec(s: &Vec<char>, i: usize) -> (r: bool)
    ensures
        r == hd_at(s@, i as int),
{
    i <= s.len() && s.len() - i >= 15 && s[i] == 'D' && s[i + 1] == '-' && run_at(s, i + 2, 7)
        && s[i + 9] == '-' && run_at(s, i + 10, 5)
}

fn legacy_at_exec(s: &Vec<char>, i: usize) -> (r: bool)
    ensures
        r == legacy_at(s@, i as int),
{
    i <= s.len() && s.len() - i >= 14 && s[i] == 'S' && s[i + 1] == '-' && run_at(s, i + 2, 7)
        && s[i + 9] == '-' && s[i + 10] == '2' && s[i + 11] == '-' && run_at(s, i + 12, 2)
}

fn run_at(s: &Vec<char>, i: usize, n: usize) -> (r: bool)
    requires
        i + n <= s.len(),
    ensures
        r == digits_at(s@, i as int, n as int),
{
    let mut k: usize = 0;
    while k < n
        invariant
            i + n <= s.len(),
            k <= n,
            forall|m: int| 0 <= m < k ==> is_digit(#[trigger] s@[i + m]),
        decreases n - k,
    {
        let c = s[i + k];
        if !('0' <= c && c <= '9') {
            return false;
        }
        k = k + 1;
    }
    true
}

/// Index of the first match of the hard dollar (`hd`) or legacy pattern.
fn find_first(s: &Vec<char>, hd: bool) -> (r: Option<usize>)
    ensures
        r is Some <==> (if hd { has_hd(s@) } else { has_legacy(s@) }),
        r matches Some(i) ==> first_at(s@, i as int, hd),
{
    let mut i: usize = 0;
    while i < s.len()
        invariant
            i <= s.len(),
            forall|j: int| 0 <= j < i ==> !(if hd { hd_at(s@, j) } else { legacy_at(s@, j) }),
        decreases s.len() - i,
    {
        let found = if hd { hd_at_exec(s, i) } else { legacy_at_exec(s, i) };
        if found {
            return Some(i);
        }
        i = i + 1;
    }
    proof {
        if hd {
            assert forall|j: int| !hd_at(s@, j) by {
                if 0 <= j < i {
                }
            }
        } else {
            assert forall|j: int| !legacy_at(s@, j) by {
                if 0 <= j < i {
                }
            }
        }
    }
    None
}

/// Reads the hard dollar element that matches at `i`.
fn read_hd(s: &Vec<char>, i: usize) -> (r: Wbs)
    requires
        hd_at(s@, i as int),
    ensures
        r == hd_from(s@, i as int),
{
    assert(i + 15 <= s.len());
    proof {
        lemma_digits_run(s@, i + 2, 7);
        lemma_digits_run(s@, i + 10, 5);
        lemma_value_bound(s@.subrange(i + 2, i + 9));
        lemma_value_bound(s@.subrange(i + 10, i + 15));
        assert(s@.subrange(i + 2, i + 9).len() == 7);
        assert(s@.subrange(i + 10, i + 15).len() == 5);
        assert(pow10(7) == 10_000_000 && pow10(5) == 100_000) by {
            reveal_with_fuel(pow10, 8);
        }
    }
    let project = parse_u32(s, i + 2, i + 9);
    let id = parse_u32(s, i + 10, i + 15);
    Wbs::Hd { project: project.unwrap(), id: id.unwrap() }
}

/// Reads the legacy element that matches at `i`.
fn read_legacy(s: &Vec<char>, i: usize) -> (r: Wbs)
    requires
        legacy_at(s@, i as int),
    ensures
        r == legacy_from(s@, i as int),
{
    assert(i + 14 <= s.len());
    proof {
        lemma_digits_run(s@, i + 2, 7);
        lemma_digits_run(s@, i + 12, 2);
        lemma_value_bound(s@.subrange(i + 2, i + 9));
        lemma_value_bound(s@.subrange(i + 12, i + 14));
        assert(s@.subrange(i + 2, i + 9).len() == 7);
        assert(s@.subrange(i + 12, i + 14).len() == 2);
        assert(pow10(7) == 10_000_000 && pow10(2) == 100) by {
            reveal_with_fuel(pow10, 8);
        }
    }
    let project = parse_u32(s, i + 2, i + 9);
    let shipment = parse_u32(s, i + 12, i + 14);
    Wbs::Legacy { project: project.unwrap(), shipment: shipment.unwrap() }
}

/// The first match is the only index that is a first match.
proof fn lemma_first_unique(s: Seq<char>, i: int, j: int, hd: bool)
    requires
        first_at(s, i, hd),
        first_at(s, j, hd),
    ensures
        i == j,
{
    if j < i {
        assert(!(if hd { hd_at(s, j) } else { legacy_at(s, j) }));
    } else if i < j {
        assert(!(if hd { hd_at(s, i) } else { legacy_at(s, i) }));
    }
}

impl Wbs {
    /// Reads the first hard dollar element in `value`, or else the first
    /// legacy one; an error naming `value` when it holds neither.
    pub fn try_from(value: &str) -> (r: Result<Wbs, String>)
        ensures
            r is Ok <==> has_hd(value@) || has_legacy(value@),
            forall|i: int| #[trigger] first_at(value@, i, true) ==> r == Ok::<Wbs, String>(hd_from(value@, i)),
            !has_hd(value@) ==> forall|i: int| #[trigger] first_at(value@, i, false) ==> r == Ok::<Wbs, String>(
                legacy_from(value@, i),
            ),
            r matches Ok(w) ==> reads_as(value@, w),
            r matches Err(e) ==> e@ == wbs_error_message(value@),
    {
        let s = chars_of(value);
        if let Some(i) = find_first(&s, true) {
            proof {
                assert forall|j: int| #[trigger] first_at(s@, j, true) implies j == i by {
                    lemma_first_unique(s@, i as int, j, true);
                }
            }
            Ok(read_hd(&s, i))
        } else if let Some(i) = find_first(&s, false) {
            proof {
                assert forall|j: int| #[trigger] first_at(s@, j, false) implies j == i by {
                    lemma_first_unique(s@, i as int, j, false);
                }
                assert forall|j: int| !(#[trigger] first_at(s@, j, true)) by {
                    if first_at(s@, j, true) {
                        assert(hd_at(s@, j));
                    }
                }
            }
            Ok(read_legacy(&s, i))
        } else {
            proof {
                assert forall|j: int| !(#[trigger] first_at(s@, j, true)) by {
                    if first_at(s@, j, true) {
                        assert(hd_at(s@, j));
                    }
                }
                assert forall|j: int| !(#[trigger] first_at(s@, j, false)) by {
                    if first_at(s@, j, false) {
                        assert(legacy_at(s@, j));
                    }
                }
            }
            let mut e = String::new();
            push_str(&mut e, "WBS element `");
            push_str(&mut e, value);
            push_str(
                &mut e,
                "` does not match either of the expected patterns `D-#######-#####` or `S-#######-2-##`",
            );
            Err(e)
        }
    }

    /// The element's text: `D-{project}-{id}` or `S-{project}-2-{shipment:02}`.
    pub fn to_string(&self) -> (r: String)
        ensures
            r@ == wbs_text(*self),
    {
        let mut r = String::new();
        match *self {
            Wbs::Hd { project, id } => {
                push_char(&mut r, 'D');
                push_char(&mut r, '-');
                push_dec(&mut r, project as u64);
                push_char(&mut r, '-');
                push_dec(&mut r, id as u64);
            },
            Wbs::Legacy { project, shipment } => {
                push_char(&mut r, 'S');
                push_char(&mut r, '-');
                push_dec(&mut r, project as u64);
                push_char(&mut r, '-');
                push_char(&mut r, '2');
                push_char(&mut r, '-');
                push_dec2(&mut r, shipment as u64);
            },
        }
        r
    }
}

} // verus!
