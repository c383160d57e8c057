//! Classification of free-form identifiers into typed lookups.
//!
//! A token is tested against a fixed list of identifier shapes, in order;
//! the first shape that the whole token has decides the lookup. Digits and
//! letters are ASCII.

use vstd::prelude::*;

use crate::buffer::is_delim;
use crate::text::{chars_of, push_str};

verus! {

pub open spec fn is_digit(c: char) -> bool {
    '0' <= c <= '9'
}

pub open spec fn is_alpha(c: char) -> bool {
    ('a' <= c <= 'z') || ('A' <= c <= 'Z')
}

pub open spec fn is_alnum(c: char) -> bool {
    is_digit(c) || is_alpha(c)
}

/// `n` digits stand in `s` from index `i` on.
pub open spec fn digits_at(s: Seq<char>, i: int, n: int) -> bool {
    &&& 0 <= i
    &&& i + n <= s.len()
    &&& forall|k: int| 0 <= k < n ==> is_digit(#[trigger] s[i + k])
}

/// Character classes of the shapes.
#[derive(Debug, Clone, Copy, PartialEq, Eq, Structural)]
pub enum Class {
    Digit,
    Alpha,
    Alnum,
}

pub open spec fn in_class(k: Class, c: char) -> bool {
    match k {
        Class::Digit => is_digit(c),
        Class::Alpha => is_alpha(c),
        Class::Alnum => is_alnum(c),
    }
}

/// The end of the run of characters of class `k` that starts at `i`.
pub open spec fn run_end(s: Seq<char>, i: int, k: Class) -> int
    decreases s.len() - i,
    when 0 <= i <= s.len()
{
    if i < s.len() && in_class(k, s[i]) {
        run_end(s, i + 1, k)
    } else {
        i
    }
}

pub proof fn lemma_run_end_bounds(s: Seq<char>, i: int, k: Class)
    requires
        0 <= i <= s.len(),
    ensures
        i <= run_end(s, i, k) <= s.len(),
        i < s.len() && in_class(k, s[i]) ==> run_end(s, i, k) > i,
        forall|j: int| i <= j < run_end(s, i, k) ==> in_class(k, #[trigger] s[j]),
    decreases s.len() - i,
{
    if i < s.len() && in_class(k, s[i]) {
        lemma_run_end_bounds(s, i + 1, k);
    }
}

/// From `i` to the end, `s` is zero or more groups, each a `-` or `_` and
/// one or more letters or digits.
pub open spec fn groups_from(s: Seq<char>, i: int) -> bool
    decreases s.len() - i,
    when 0 <= i <= s.len()
{
    if i == s.len() {
        true
    } else if is_delim(s[i]) && i + 1 < s.len() && is_alnum(s[i + 1]) {
        proof {
            lemma_run_end_bounds(s, i + 1, Class::Alnum);
        }
        groups_from(s, run_end(s, i + 1, Class::Alnum))
    } else {
        false
    }
}

/// From `i` to the end, `s` is zero or more pairs of `-` and one letter or
/// digit.
pub open spec fn pairs_from(s: Seq<char>, i: int) -> bool
    decreases s.len() - i,
    when 0 <= i <= s.len()
{
    if i == s.len() {
        true
    } else if s[i] == '-' && i + 1 < s.len() && is_alnum(s[i + 1]) {
        pairs_from(s, i + 2)
    } else {
        false
    }
}

/// `lit` stands in `s` at `i`.
pub open spec fn lit_at(s: Seq<char>, i: int, lit: Seq<char>) -> bool {
    0 <= i && i + lit.len() <= s.len() && s.subrange(i, i + lit.len()) == lit
}

/// Past the optional `lit` at `i`.
pub open spec fn skip_opt(s: Seq<char>, i: int, lit: Seq<char>) -> int {
    if lit_at(s, i, lit) {
        i + lit.len()
    } else {
        i
    }
}

/// Past the optional thickness code (`T` or `F`, then `1` to `3`) at `i`.
pub open spec fn skip_grade(s: Seq<char>, i: int) -> int {
    if 0 <= i && i + 1 < s.len() && (s[i] == 'T' || s[i] == 'F') && '1' <= s[i + 1] <= '3' {
        i + 2
    } else {
        i
    }
}

/// The identifier shapes, in the order in which they are tried. Each must
/// match the whole token.
#[derive(Debug, Clone, Copy, PartialEq, Eq, Structural)]
pub enum Shape {
    /// Five or more digits, then zero or more groups of `-` or `_` and
    /// letters or digits: `12345`, `12345-A_2`.
    Program,
    /// Seven digits, a letter, `-`, letters or digits, then zero or more
    /// pairs of `-` and one letter or digit: `1234567A-B12-3`.
    Part,
    /// `S`, `X` or `W`, five digits, then groups as for a program: `S00012`.
    Sheet,
    /// Stock material: an optional `9-`, an optional `HPS`, the grade `50`,
    /// an optional `W`, an optional thickness code `T1`..`F3`, `-`, four
    /// digits and optional letters: `9-HPS50WT2-1234AB`, `50-1234`.
    StockMaterial,
    /// Project material: seven digits, a letter, two digits, `-`, five
    /// digits and optional letters: `1234567A12-12345B`.
    ProjectMaterial,
}

/// The whole of `s` has the shape `shape`.
pub open spec fn has_shape(shape: Shape, s: Seq<char>) -> bool {
    match shape {
        Shape::Program => run_end(s, 0, Class::Digit) >= 5 && groups_from(
            s,
            run_end(s, 0, Class::Digit),
        ),
        Shape::Part => {
            &&& digits_at(s, 0, 7)
            &&& s.len() > 9
            &&& is_alpha(s[7])
            &&& s[8] == '-'
            &&& run_end(s, 9, Class::Alnum) > 9
            &&& pairs_from(s, run_end(s, 9, Class::Alnum))
        },
        Shape::Sheet => {
            &&& s.len() >= 6
            &&& (s[0] == 'S' || s[0] == 'X' || s[0] == 'W')
            &&& digits_at(s, 1, 5)
            &&& groups_from(s, 6)
        },
        Shape::StockMaterial => {
            let a = skip_opt(s, skip_opt(s, 0, seq!['9', '-']), seq!['H', 'P', 'S']);
            let b = skip_grade(s, skip_opt(s, a + 2, seq!['W']));
            &&& lit_at(s, a, seq!['5', '0'])
            &&& lit_at(s, b, seq!['-'])
            &&& digits_at(s, b + 1, 4)
            &&& run_end(s, b + 5, Class::Alpha) == s.len()
        },
        Shape::ProjectMaterial => {
            &&& digits_at(s, 0, 7)
            &&& s.len() >= 16
            &&& is_alpha(s[7])
            &&& digits_at(s, 8, 2)
            &&& s[10] == '-'
            &&& digits_at(s, 11, 5)
            &&& run_end(s, 16, Class::Alpha) == s.len()
        },
    }
}

/// The kinds of lookup.
#[derive(Debug, Clone, Copy, PartialEq, Eq, Structural)]
pub enum QueryKind {
    ProgramStatus,
    PartStatus,
    SheetStatus,
    MaterialStatus,
}

/// The lookup that a token asks for: the first shape, in order, that the
/// whole token has decides; `None` when it has none.
pub open spec fn kind_of(s: Seq<char>) -> Option<QueryKind> {
    if has_shape(Shape::Program, s) {
        Some(QueryKind::ProgramStatus)
    } else if has_shape(Shape::Part, s) {
        Some(QueryKind::PartStatus)
    } else if has_shape(Shape::Sheet, s) {
        Some(QueryKind::SheetStatus)
    } else if has_shape(Shape::StockMaterial, s) || has_shape(Shape::ProjectMaterial, s) {
        Some(QueryKind::MaterialStatus)
    } else {
        None
    }
}

/// The message for a token that matches no shape.
pub open spec fn unmatched_message(s: Seq<char>) -> Seq<char> {
    "No query pattern matched for value `"@ + s + "`"@
}

fn digits_at_exec(s: &Vec<char>, i: usize, n: usize) -> (r: bool)
    ensures
        r == digits_at(s@, i as int, n as int),
{
    if n > s.len() || i > s.len() - n {
        return false;
    }
    let mut k: usize = 0;
    while k < n
        invariant
            i + n <= s.len(),
            k <= n,
            forall|m: int| 0 <= m < k ==> is_digit(#[trigger] s@[i + m]),
        decreases n - k,
    {
        let c = s[i + k];
        if !('0' <= c && c <= '9') {
            assert(!is_digit(s@[i + k as int]));
            return false;
        }
        k = k + 1;
    }
    true
}

fn in_class_exec(k: Class, c: char) -> (r: bool)
    ensures
        r == in_class(k, c),
{
    let digit = '0' <= c && c <= '9';
    let alpha = ('a' <= c && c <= 'z') || ('A' <= c && c <= 'Z');
    match k {
        Class::Digit => digit,
        Class::Alpha => alpha,
        Class::Alnum => digit || alpha,
    }
}

fn run_end_exec(s: &Vec<char>, i: usize, k: Class) -> (r: usize)
    requires
        i <= s.len(),
    ensures
        r == run_end(s@, i as int, k),
{
    let mut j = i;
    while j < s.len() && in_class_exec(k, s[j])
        invariant
            i <= j <= s.len(),
            run_end(s@, i as int, k) == run_end(s@, j as int, k),
        decreases s.len() - j,
    {
        j = j + 1;
    }
    j
}

fn groups_from_exec(s: &Vec<char>, i: usize) -> (r: bool)
    requires
        i <= s.len(),
    ensures
        r == groups_from(s@, i as int),
{
    let mut j = i;
    while j < s.len()
        invariant
            i <= j <= s.len(),
            groups_from(s@, i as int) == groups_from(s@, j as int),
        decreases s.len() - j,
    {
        let c = s[j];
        if (c == '-' || c == '_') && s.len() - j > 1 && in_class_exec(Class::Alnum, s[j + 1]) {
            proof {
                lemma_run_end_bounds(s@, j + 1, Class::Alnum);
            }
            j = run_end_exec(s, j + 1, Class::Alnum);
        } else {
            return false;
        }
    }
    true
}

fn pairs_from_exec(s: &Vec<char>, i: usize) -> (r: bool)
    requires
        i <= s.len(),
    ensures
        r == pairs_from(s@, i as int),
{
    let mut j = i;
    while j < s.len()
        invariant
            i <= j <= s.len(),
            pairs_from(s@, i as int) == pairs_from(s@, j as int),
        decreases s.len() - j,
    {
        if s[j] == '-' && s.len() - j > 1 && in_class_exec(Class::Alnum, s[j + 1]) {
            j = j + 2;
        } else {
            return false;
        }
    }
    true
}

fn lit_at_exec(s: &Vec<char>, i: usize, lit: &Vec<char>) -> (r: bool)
    ensures
        r == lit_at(s@, i as int, lit@),
{
    if i > s.len() || lit.len() > s.len() - i {
        return false;
    }
    let mut k: usize = 0;
    while k < lit.len()
        invariant
            i + lit.len() <= s.len(),
            k <= lit.len(),
            forall|m: int| 0 <= m < k ==> s@[i + m] == lit@[m],
        decreases lit.len() - k,
    {
        if s[i + k] != lit[k] {
            assert(s@.subrange(i as int, i + lit.len())[k as int] == s@[i + k]);
            return false;
        }
        k = k + 1;
    }
    assert(s@.subrange(i as int, i + lit.len()) == lit@);
    true
}

fn skip_opt_exec(s: &Vec<char>, i: usize, lit: &Vec<char>) -> (r: usize)
    ensures
        r == skip_opt(s@, i as int, lit@),
{
    if lit_at_exec(s, i, lit) {
        assert(i + lit.len() <= s.len());
        i + lit.len()
    } else {
        i
    }
}

fn stock_material_exec(s: &Vec<char>) -> (r: bool)
    ensures
        r == has_shape(Shape::StockMaterial, s@),
{
    let nine = vec!['9', '-'];
    let hps = vec!['H', 'P', 'S'];
    let grade = vec!['5', '0'];
    let weathering = vec!['W'];
    let dash = vec!['-'];
    assert(nine@ == seq!['9', '-'] && hps@ == seq!['H', 'P', 'S'] && grade@ == seq!['5', '0']
        && weathering@ == seq!['W'] && dash@ == seq!['-']);
    let a = skip_opt_exec(s, skip_opt_exec(s, 0, &nine), &hps);
    if !lit_at_exec(s, a, &grade) {
        return false;
    }
    let w = skip_opt_exec(s, a + 2, &weathering);
    let b = if w < s.len() && s.len() - w > 1 && (s[w] == 'T' || s[w] == 'F') && '1' <= s[w + 1]
        && s[w + 1] <= '3' {
        w + 2
    } else {
        w
    };
    if !lit_at_exec(s, b, &dash) || !digits_at_exec(s, b + 1, 4) {
        return false;
    }
    run_end_exec(s, b + 5, Class::Alpha) == s.len()
}

fn shape_exec(shape: Shape, s: &Vec<char>) -> (r: bool)
    ensures
        r == has_shape(shape, s@),
{
    match shape {
        Shape::Program => {
            let k = run_end_exec(s, 0, Class::Digit);
            proof {
                lemma_run_end_bounds(s@, 0, Class::Digit);
            }
            k >= 5 && groups_from_exec(s, k)
        },
        Shape::Part => {
            if !(digits_at_exec(s, 0, 7) && s.len() > 9 && in_class_exec(Class::Alpha, s[7]) && s[8]
                == '-') {
                return false;
            }
            let k = run_end_exec(s, 9, Class::Alnum);
            proof {
                lemma_run_end_bounds(s@, 9, Class::Alnum);
            }
            k > 9 && pairs_from_exec(s, k)
        },
        Shape::Sheet => {
            s.len() >= 6 && (s[0] == 'S' || s[0] == 'X' || s[0] == 'W') && digits_at_exec(s, 1, 5)
                && groups_from_exec(s, 6)
        },
        Shape::StockMaterial => stock_material_exec(s),
        Shape::ProjectMaterial => {
            digits_at_exec(s, 0, 7) && s.len() >= 16 && in_class_exec(Class::Alpha, s[7])
                && digits_at_exec(s, 8, 2) && s[10] == '-' && digits_at_exec(s, 11, 5)
                && run_end_exec(s, 16, Class::Alpha) == s.len()
        },
    }
}

/// Whether the whole of `s` has the shape `shape`.
pub fn matches_shape(shape: Shape, s: &Vec<char>) -> (r: bool)
    ensures
        r == has_shape(shape, s@),
{
    shape_exec(shape, s)
}

/// A classified lookup request for one identifier.
#[derive(Debug)]
pub enum Query {
    ProgramStatus(String),
    PartStatus(String),
    SheetStatus(String),
    MaterialStatus(String),
}

impl Query {
    /// What kind of lookup this is.
    pub open spec fn kind(&self) -> QueryKind {
        match self {
            Query::ProgramStatus(_) => QueryKind::ProgramStatus,
            Query::PartStatus(_) => QueryKind::PartStatus,
            Query::SheetStatus(_) => QueryKind::SheetStatus,
            Query::MaterialStatus(_) => QueryKind::MaterialStatus,
        }
    }

    /// The identifier looked up.
    pub open spec fn value(&self) -> Seq<char> {
        match self {
            Query::ProgramStatus(v) => v@,
            Query::PartStatus(v) => v@,
            Query::SheetStatus(v) => v@,
            Query::MaterialStatus(v) => v@,
        }
    }

    /// The identifier looked up.
    pub fn identifier(&self) -> (r: &String)
        ensures
            r@ == self.value(),
    {
        match self {
            Query::ProgramStatus(v) => v,
            Query::PartStatus(v) => v,
            Query::SheetStatus(v) => v,
            Query::MaterialStatus(v) => v,
        }
    }

    pub open spec fn procedure_spec(&self) -> Seq<char> {
        match self {
            Query::ProgramStatus(_) => "EXEC GetProgramStatus @ProgramName=@P1"@,
            Query::PartStatus(_) => "EXEC GetPartStatus @ProgramName=@P1"@,
            Query::SheetStatus(_) => "EXEC GetSheetStatus @ProgramName=@P1"@,
            Query::MaterialStatus(_) => "EXEC GetMaterialStatus @ProgramName=@P1"@,
        }
    }

    /// The stored procedure call that runs this lookup, with the identifier
    /// bound to `@P1`.
    pub fn procedure(&self) -> (r: &'static str)
        ensures
            r@ == self.procedure_spec(),
    {
        match self {
            Query::ProgramStatus(_) => "EXEC GetProgramStatus @ProgramName=@P1",
            Query::PartStatus(_) => "EXEC GetPartStatus @ProgramName=@P1",
            Query::SheetStatus(_) => "EXEC GetSheetStatus @ProgramName=@P1",
            Query::MaterialStatus(_) => "EXEC GetMaterialStatus @ProgramName=@P1",
        }
    }

    /// The kind of lookup this is.
    pub fn query_kind(&self) -> (r: QueryKind)
        ensures
            r == self.kind(),
    {
        match self {
            Query::ProgramStatus(_) => QueryKind::ProgramStatus,
            Query::PartStatus(_) => QueryKind::PartStatus,
            Query::SheetStatus(_) => QueryKind::SheetStatus,
            Query::MaterialStatus(_) => QueryKind::MaterialStatus,
        }
    }

    /// Classifies `value`: the first shape, in order, that the whole token
    /// has decides the lookup; when it has none, the error names the token.
    pub fn classify(value: &str) -> (r: Result<Query, String>)
        ensures
            r is Ok <==> kind_of(value@) is Some,
            r matches Ok(q) ==> q.kind() == kind_of(value@)->0 && q.value() == value@,
            r matches Err(e) ==> e@ == unmatched_message(value@),
    {
        let s = chars_of(value);
        let owned = value.to_owned();
        if matches_shape(Shape::Program, &s) {
            Ok(Query::ProgramStatus(owned))
        } else if matches_shape(Shape::Part, &s) {
            Ok(Query::PartStatus(owned))
        } else if matches_shape(Shape::Sheet, &s) {
            Ok(Query::SheetStatus(owned))
        } else if matches_shape(Shape::StockMaterial, &s) || matches_shape(
            Shape::ProjectMaterial,
            &s,
        ) {
            Ok(Query::MaterialStatus(owned))
        } else {
            let mut e = String::new();
            push_str(&mut e, "No query pattern matched for value `");
            push_str(&mut e, value);
            push_str(&mut e, "`");
            Err(e)
        }
    }
}

} // verus!
