//! Database-facing values: connection parameters and the text form of a
//! result row.

use vstd::prelude::*;

use crate::text::{chars_of, is_space, is_space_exec, string_of};

verus! {

/// Parameters for a SQL Server connection.
#[derive(Debug)]
pub struct DbConnParams {
    /// Server name.
    pub server: String,
    /// Database name.
    pub database: String,
}

impl Default for DbConnParams {
    fn default() -> (r: Self)
        ensures
            r.server@ == "<server>"@,
            r.database@ == "<database>"@,
    {
        DbConnParams { server: "<server>".to_owned(), database: "<database>".to_owned() }
    }
}

/// Each column followed by a tab.
pub open spec fn tab_joined(cols: Seq<Seq<char>>) -> Seq<char>
    decreases cols.len(),
{
    if cols.len() == 0 {
        Seq::empty()
    } else {
        tab_joined(cols.drop_last()) + cols.last() + seq!['\t']
    }
}

/// `s` without its trailing whitespace.
pub open spec fn trim_end(s: Seq<char>) -> Seq<char>
    decreases s.len(),
{
    if s.len() > 0 && is_space(s.last()) {
        trim_end(s.drop_last())
    } else {
        s
    }
}

/// A row as one line: each column followed by a tab, then the trailing
/// whitespace removed.
pub open spec fn row_text(cols: Seq<Seq<char>>) -> Seq<char> {
    trim_end(tab_joined(cols))
}

/// The columns' text, each followed by a tab.
fn join_tabs(row: &Vec<String>) -> (r: Vec<char>)
    ensures
        r@ == tab_joined(row@.map_values(|c: String| c@)),
{
    let mut r: Vec<char> = Vec::new();
    for i in 0..row.len()
        invariant
            r@ == tab_joined(row@.take(i as int).map_values(|c: String| c@)),
    {
        let mut col = chars_of(row[i].as_str());
        r.append(&mut col);
        r.push('\t');
        proof {
            let f = |c: String| c@;
            let m = row@.take(i + 1).map_values(f);
            assert(m.drop_last() == row@.take(i as int).map_values(f));
            assert(m.last() == row@[i as int]@);
        }
    }
    assert(row@.take(row.len() as int) == row@);
    r
}

/// Converts a result row, its columns already as text, to a tab-delimited
/// line without trailing whitespace.
pub fn row_to_string(row: &Vec<String>) -> (r: String)
    ensures
        r@ == row_text(row@.map_values(|c: String| c@)),
{
    let line = join_tabs(row);
    let mut end = line.len();
    assert(line@.take(end as int) == line@);
    while end > 0 && is_space_exec(line[end - 1])
        invariant
            end <= line.len(),
            trim_end(line@) == trim_end(line@.take(end as int)),
        decreases end,
    {
        assert(line@.take(end - 1) == line@.take(end as int).drop_last());
        end = end - 1;
    }
    let mut kept: Vec<char> = Vec::new();
    for i in 0..end
        invariant
            end <= line.len(),
            kept@ == line@.take(i as int),
    {
        kept.push(line[i]);
        assert(line@.take(i + 1) == line@.take(i as int).push(line@[i as int]));
    }
    assert(line@.take(line@.len() as int) == line@);
    string_of(&kept)
}

} // verus!
