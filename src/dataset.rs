//! The SAP consumption datasets that the export job pulls and writes to
//! `.ready` files.

use vstd::prelude::*;

use crate::db::{row_text, row_to_string, DbConnParams};
use crate::program::Timestamp;
use crate::text::{push_char, push_str};

verus! {

#[derive(Debug, Clone, Copy, PartialEq, Eq, Structural)]
pub enum Dataset {
    Production,
    Issue,
}

impl Dataset {
    pub open spec fn name_spec(self) -> Seq<char> {
        match self {
            Dataset::Production => "Production"@,
            Dataset::Issue => "Issue"@,
        }
    }

    pub open spec fn query_spec(self) -> Seq<char> {
        match self {
            Dataset::Production => "EXEC SapProductionData_SinceLastRun @End = @P1"@,
            Dataset::Issue => "EXEC SapIssueData_SinceLastRun @End = @P1"@,
        }
    }

    pub fn name(&self) -> (r: &'static str)
        ensures
            r@ == self.name_spec(),
    {
        match self {
            Dataset::Production => "Production",
            Dataset::Issue => "Issue",
        }
    }

    /// The stored procedure that returns the rows since the last run, up to
    /// the end time bound to `@P1`.
    pub fn query(&self) -> (r: &'static str)
        ensures
            r@ == self.query_spec(),
    {
        match self {
            Dataset::Production => "EXEC SapProductionData_SinceLastRun @End = @P1",
            Dataset::Issue => "EXEC SapIssueData_SinceLastRun @End = @P1",
        }
    }

    /// `{name}_{YYYYMMDDhhmmss}.ready`, for the run that ends at `end`.
    pub fn file_name(&self, end: &Timestamp) -> (r: String)
        ensures
            r@ == self.name_spec() + seq!['_'] + end.compact_spec() + ".ready"@,
    {
        let mut r = String::new();
        push_str(&mut r, self.name());
        push_char(&mut r, '_');
        push_str(&mut r, end.compact().as_str());
        push_str(&mut r, ".ready");
        r
    }

    /// The name under which the last run time of this dataset is kept:
    /// `Sap{name}Data`.
    pub fn runtime_name(&self) -> (r: String)
        ensures
            r@ == "Sap"@ + self.name_spec() + "Data"@,
    {
        let mut r = String::new();
        push_str(&mut r, "Sap");
        push_str(&mut r, self.name());
        push_str(&mut r, "Data");
        r
    }
}

/// The lines of `rows`, separated by newlines.
pub open spec fn file_text(rows: Seq<Seq<Seq<char>>>) -> Seq<char>
    decreases rows.len(),
{
    if rows.len() == 0 {
        Seq::empty()
    } else if rows.len() == 1 {
        row_text(rows[0])
    } else {
        file_text(rows.drop_last()) + seq!['\n'] + row_text(rows.last())
    }
}

pub open spec fn rows_view(rows: Seq<Vec<String>>) -> Seq<Seq<Seq<char>>> {
    rows.map_values(|r: Vec<String>| r@.map_values(|c: String| c@))
}

/// The contents of a dataset file: one tab-delimited line per row.
pub fn file_contents(rows: &Vec<Vec<String>>) -> (r: String)
    ensures
        r@ == file_text(rows_view(rows@)),
{
    let mut r = String::new();
    for i in 0..rows.len()
        invariant
            r@ == file_text(rows_view(rows@.take(i as int))),
    {
        if i > 0 {
            push_char(&mut r, '\n');
        }
        let line = row_to_string(&rows[i]);
        push_str(&mut r, line.as_str());
        proof {
            let v = rows_view(rows@.take(i + 1));
            assert(v.drop_last() == rows_view(rows@.take(i as int)));
            assert(v.last() == rows@[i as int]@.map_values(|c: String| c@));
            if i == 0 {
                assert(v.len() == 1);
                assert(r@ == row_text(v[0]));
            }
        }
    }
    assert(rows@.take(rows.len() as int) == rows@);
    r
}

/// The export job's configuration.
#[derive(Debug)]
pub struct SapConsumptionConfig {
    pub database: DbConnParams,
    /// Directory that the `.ready` files are written to.
    pub output_dir: String,
    /// Application name used in the event log and the log table.
    pub logging_name: String,
}

impl Default for SapConsumptionConfig {
    fn default() -> (r: Self)
        ensures
            r.database.server@ == "<server>"@,
            r.database.database@ == "<database>"@,
            r.output_dir@ == "\\\\<server>\\<path to where .ready files are placed>"@,
            r.logging_name@ == "<application name used for logging to the Windows Event Log>"@,
    {
        SapConsumptionConfig {
            database: DbConnParams::default(),
            output_dir: "\\\\<server>\\<path to where .ready files are placed>".to_owned(),
            logging_name: "<application name used for logging to the Windows Event Log>".to_owned(),
        }
    }
}

} // verus!
