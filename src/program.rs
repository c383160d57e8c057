//! Program status records and their rows in the result table.

use vstd::prelude::*;

use crate::text::{dec, dec2, push_char, push_dec, push_dec2, push_str};
use crate::wbs::{reads_as, wbs_error_message, Wbs};

verus! {

/// A date and time of day, to the second, in years 0 to 9999.
#[derive(Debug, Clone, Copy, PartialEq, Eq, Structural)]
pub struct Timestamp {
    year: u16,
    month: u8,
    day: u8,
    hour: u8,
    minute: u8,
    second: u8,
}

/// `n` in decimal, zero-padded to at least four digits.
pub open spec fn dec4(n: nat) -> Seq<char> {
    if n < 10 {
        seq!['0', '0', '0'] + dec(n)
    } else if n < 100 {
        seq!['0', '0'] + dec(n)
    } else if n < 1000 {
        seq!['0'] + dec(n)
    } else {
        dec(n)
    }
}

/// `n` in decimal, space-padded to at least two characters.
pub open spec fn sp2(n: nat) -> Seq<char> {
    if n < 10 {
        seq![' '] + dec(n)
    } else {
        dec(n)
    }
}

/// The English abbreviation of month `m`.
pub open spec fn month_abbr(m: nat) -> Seq<char> {
    if m == 1 {
        "Jan"@
    } else if m == 2 {
        "Feb"@
    } else if m == 3 {
        "Mar"@
    } else if m == 4 {
        "Apr"@
    } else if m == 5 {
        "May"@
    } else if m == 6 {
        "Jun"@
    } else if m == 7 {
        "Jul"@
    } else if m == 8 {
        "Aug"@
    } else if m == 9 {
        "Sep"@
    } else if m == 10 {
        "Oct"@
    } else if m == 11 {
        "Nov"@
    } else {
        "Dec"@
    }
}

fn push_dec4(s: &mut String, n: u64)
    ensures
        final(s)@ == old(s)@ + dec4(n as nat),
{
    let zeros: usize = if n < 10 {
        3
    } else if n < 100 {
        2
    } else if n < 1000 {
        1
    } else {
        0
    };
    let ghost pad = Seq::new(zeros as nat, |i: int| '0');
    for k in 0..zeros
        invariant
            s@ == old(s)@ + Seq::new(k as nat, |i: int| '0'),
    {
        push_char(s, '0');
        assert(Seq::new((k + 1) as nat, |i: int| '0') == Seq::new(k as nat, |i: int| '0').push('0'));
    }
    push_dec(s, n);
    assert(pad + dec(n as nat) == dec4(n as nat));
}

fn push_sp2(s: &mut String, n: u64)
    ensures
        final(s)@ == old(s)@ + sp2(n as nat),
{
    if n < 10 {
        push_char(s, ' ');
        push_dec(s, n);
        assert(old(s)@.push(' ') + dec(n as nat) == old(s)@ + (seq![' '] + dec(n as nat)));
    } else {
        push_dec(s, n);
    }
}

fn month_abbr_exec(m: u8) -> (r: &'static str)
    ensures
        r@ == month_abbr(m as nat),
{
    if m == 1 {
        "Jan"
    } else if m == 2 {
        "Feb"
    } else if m == 3 {
        "Mar"
    } else if m == 4 {
        "Apr"
    } else if m == 5 {
        "May"
    } else if m == 6 {
        "Jun"
    } else if m == 7 {
        "Jul"
    } else if m == 8 {
        "Aug"
    } else if m == 9 {
        "Sep"
    } else if m == 10 {
        "Oct"
    } else if m == 11 {
        "Nov"
    } else {
        "Dec"
    }
}

impl Timestamp {
    pub closed spec fn year(&self) -> nat {
        self.year as nat
    }

    pub closed spec fn month(&self) -> nat {
        self.month as nat
    }

    pub closed spec fn day(&self) -> nat {
        self.day as nat
    }

    pub closed spec fn hour(&self) -> nat {
        self.hour as nat
    }

    pub closed spec fn minute(&self) -> nat {
        self.minute as nat
    }

    pub closed spec fn second(&self) -> nat {
        self.second as nat
    }

    #[verifier::type_invariant]
    spec fn inv(&self) -> bool {
        self.wf()
    }

    /// The fields are in range.
    pub open spec fn wf(&self) -> bool {
        &&& self.year() <= 9999
        &&& 1 <= self.month() <= 12
        &&& 1 <= self.day() <= 31
        &&& self.hour() < 24
        &&& self.minute() < 60
        &&& self.second() < 60
    }

    /// The timestamp with these fields, if each is in range.
    pub fn new(year: u16, month: u8, day: u8, hour: u8, minute: u8, second: u8) -> (r: Option<Timestamp>)
        ensures
            r is Some <==> (year <= 9999 && 1 <= month <= 12 && 1 <= day <= 31 && hour < 24
                && minute < 60 && second < 60),
            r matches Some(t) ==> t.wf() && t.year() == year && t.month() == month && t.day() == day
                && t.hour() == hour && t.minute() == minute && t.second() == second,
    {
        if year <= 9999 && 1 <= month && month <= 12 && 1 <= day && day <= 31 && hour < 24 && minute
            < 60 && second < 60 {
            Some(Timestamp { year, month, day, hour, minute, second })
        } else {
            None
        }
    }

    /// Year, month, day, hour, minute and second.
    pub fn fields(&self) -> (r: (u16, u8, u8, u8, u8, u8))
        ensures
            self.wf(),
            r.0 == self.year() && r.1 == self.month() && r.2 == self.day(),
            r.3 == self.hour() && r.4 == self.minute() && r.5 == self.second(),
    {
        proof {
            use_type_invariant(self);
        }
        (self.year, self.month, self.day, self.hour, self.minute, self.second)
    }

    /// The start of the hour: minutes and seconds set to zero.
    pub fn start_of_hour(&self) -> (r: Timestamp)
        ensures
            r.wf(),
            r.year() == self.year() && r.month() == self.month() && r.day() == self.day(),
            r.hour() == self.hour() && r.minute() == 0 && r.second() == 0,
    {
        proof {
            use_type_invariant(self);
        }
        Timestamp { minute: 0, second: 0, ..*self }
    }

    /// `YYYYMMDDhhmmss`.
    pub open spec fn compact_spec(&self) -> Seq<char> {
        dec4(self.year()) + dec2(self.month()) + dec2(self.day()) + dec2(self.hour()) + dec2(
            self.minute(),
        ) + dec2(self.second())
    }

    /// `D.Mon.YYYY h:mm am`: day and hour (of 24) space-padded to two places,
    /// `am` before noon and `pm` from noon on.
    pub open spec fn display_spec(&self) -> Seq<char> {
        sp2(self.day()) + seq!['.'] + month_abbr(self.month()) + seq!['.'] + dec4(self.year()) + seq![
            ' ',
        ] + sp2(self.hour()) + seq![':'] + dec2(self.minute()) + seq![' '] + if self.hour() < 12 {
            seq!['a', 'm']
        } else {
            seq!['p', 'm']
        }
    }

    /// The timestamp as `YYYYMMDDhhmmss`.
    pub fn compact(&self) -> (r: String)
        ensures
            r@ == self.compact_spec(),
    {
        let mut r = String::new();
        push_dec4(&mut r, self.year as u64);
        push_dec2(&mut r, self.month as u64);
        push_dec2(&mut r, self.day as u64);
        push_dec2(&mut r, self.hour as u64);
        push_dec2(&mut r, self.minute as u64);
        push_dec2(&mut r, self.second as u64);
        r
    }

    /// The timestamp as shown in the table, e.g. ` 5.Mar.2024 14:07 pm`.
    pub fn display(&self) -> (r: String)
        ensures
            r@ == self.display_spec(),
    {
        let mut r = String::new();
        push_sp2(&mut r, self.day as u64);
        push_char(&mut r, '.');
        push_str(&mut r, month_abbr_exec(self.month));
        push_char(&mut r, '.');
        push_dec4(&mut r, self.year as u64);
        push_char(&mut r, ' ');
        push_sp2(&mut r, self.hour as u64);
        push_char(&mut r, ':');
        push_dec2(&mut r, self.minute as u64);
        push_char(&mut r, ' ');
        if self.hour < 12 {
            push_char(&mut r, 'a');
        } else {
            push_char(&mut r, 'p');
        }
        push_char(&mut r, 'm');
        r
    }
}

/// Sigmanest sheet.
#[derive(Debug, Default)]
pub struct Sheet {
    /// Sheet name (id).
    pub name: String,
    /// SAP material master.
    pub mm: String,
    /// Heat number.
    pub heat: String,
    /// Purchase order number.
    pub po: String,
    /// SAP WBS element.
    pub wbs: Option<Wbs>,
}

/// State of a program.
#[derive(Debug)]
pub enum ProgramState {
    /// Active since the last posting.
    Active(Timestamp),
    /// Deleted at the time given.
    Deleted(Timestamp),
    /// Updated (heat swap) at the time given, by the operator if known.
    Updated { timestamp: Timestamp, operator: Option<String> },
}

/// A program with its state and sheet.
#[derive(Debug)]
pub struct Program {
    pub name: String,
    pub state: ProgramState,
    pub sheet: Sheet,
}

/// The header of the program status table.
pub const HEADER: [&'static str; 8] = [
    "Program",
    "Status",
    "Timestamp",
    "SAP MM",
    "Heat Number",
    "PO Number",
    "SheetName",
    "Operator",
];

/// The header of the program status table, as strings.
pub fn header() -> (r: Vec<String>)
    ensures
        r@.len() == 8,
        forall|i: int| 0 <= i < 8 ==> #[trigger] r@[i]@ == HEADER@[i]@,
{
    let mut r: Vec<String> = Vec::new();
    for i in 0..8
        invariant
            r@.len() == i,
            forall|j: int| 0 <= j < i ==> #[trigger] r@[j]@ == HEADER@[j]@,
    {
        r.push(HEADER[i].to_owned());
    }
    r
}

/// Colours of table cells.
#[derive(Debug, Clone, Copy, PartialEq, Eq, Structural)]
pub enum CellColor {
    Plain,
    Blue,
    Red,
    Green,
}

/// One cell of a table row.
#[derive(Debug)]
pub struct Cell {
    pub text: String,
    pub color: CellColor,
}

pub struct CellView {
    pub text: Seq<char>,
    pub color: CellColor,
}

impl View for Cell {
    type V = CellView;

    open spec fn view(&self) -> CellView {
        CellView { text: self.text@, color: self.color }
    }
}

pub open spec fn plain(t: Seq<char>) -> CellView {
    CellView { text: t, color: CellColor::Plain }
}

/// The row of a program in the status table: name, status, time, material
/// master, heat and purchase order (for updated programs only), sheet, and
/// the operator when an update names one.
pub open spec fn program_row(p: &Program) -> Seq<CellView> {
    match &p.state {
        ProgramState::Active(t) => seq![
            plain(p.name@),
            CellView { text: "Active"@, color: CellColor::Blue },
            plain(t.display_spec()),
            plain(p.sheet.mm@),
            plain(Seq::empty()),
            plain(Seq::empty()),
            plain(p.sheet.name@),
        ],
        ProgramState::Deleted(t) => seq![
            plain(p.name@),
            CellView { text: "Deleted"@, color: CellColor::Red },
            plain(t.display_spec()),
            plain(p.sheet.mm@),
            plain(Seq::empty()),
            plain(Seq::empty()),
            plain(p.sheet.name@),
        ],
        ProgramState::Updated { timestamp, operator } => seq![
            plain(p.name@),
            CellView { text: "Updated"@, color: CellColor::Green },
            plain(timestamp.display_spec()),
            plain(p.sheet.mm@),
            plain(p.sheet.heat@),
            plain(p.sheet.po@),
            plain(p.sheet.name@),
        ] + match operator {
            Some(o) => seq![plain(o@)],
            None => Seq::empty(),
        },
    }
}

fn cell(text: String, color: CellColor) -> (r: Cell)
    ensures
        r@ == (CellView { text: text@, color }),
{
    Cell { text, color }
}

/// The columns a program record is read from.
#[derive(Debug, Clone, Copy, PartialEq, Eq, Structural)]
pub enum Column {
    ProgramName,
    Status,
    Timestamp,
    SheetName,
}

/// Why a record gives no program.
#[derive(Debug)]
pub enum RecordError {
    /// A column that every record needs is empty.
    Missing(Column),
    /// The status is none of `Active`, `Deleted`, `Updated`.
    UnexpectedStatus(String),
    /// The WBS column of an updated program is not a WBS element; the
    /// message says why.
    InvalidWbs(String),
}

/// The columns of a program status row, each possibly empty.
#[derive(Debug, Default)]
pub struct ProgramRecord {
    pub program_name: Option<String>,
    pub status: Option<String>,
    pub timestamp: Option<Timestamp>,
    pub sheet_name: Option<String>,
    pub material_master: Option<String>,
    pub heat_number: Option<String>,
    pub po_number: Option<String>,
    pub wbs: Option<String>,
    pub operator: Option<String>,
}

/// The text of an optional column, empty when the column is.
pub open spec fn or_empty(o: Option<String>) -> Seq<char> {
    match o {
        Some(s) => s@,
        None => Seq::empty(),
    }
}

fn take_or_empty(o: Option<String>) -> (r: String)
    ensures
        r@ == or_empty(o),
{
    match o {
        Some(s) => s,
        None => String::new(),
    }
}

fn str_eq(a: &String, b: &str) -> (r: bool)
    ensures
        r == (a@ == b@),
{
    let t = b.to_owned();
    *a == t
}

impl Program {
    /// The program's row in the status table.
    pub fn cells(&self) -> (r: Vec<Cell>)
        ensures
            r@.map_values(|c: Cell| c@) == program_row(self),
    {
        let mut r: Vec<Cell> = Vec::new();
        r.push(cell(self.name.clone(), CellColor::Plain));
        match &self.state {
            ProgramState::Active(t) => {
                r.push(cell("Active".to_owned(), CellColor::Blue));
                r.push(cell(t.display(), CellColor::Plain));
                r.push(cell(self.sheet.mm.clone(), CellColor::Plain));
                r.push(cell(String::new(), CellColor::Plain));
                r.push(cell(String::new(), CellColor::Plain));
                r.push(cell(self.sheet.name.clone(), CellColor::Plain));
            },
            ProgramState::Deleted(t) => {
                r.push(cell("Deleted".to_owned(), CellColor::Red));
                r.push(cell(t.display(), CellColor::Plain));
                r.push(cell(self.sheet.mm.clone(), CellColor::Plain));
                r.push(cell(String::new(), CellColor::Plain));
                r.push(cell(String::new(), CellColor::Plain));
                r.push(cell(self.sheet.name.clone(), CellColor::Plain));
            },
            ProgramState::Updated { timestamp, operator } => {
                r.push(cell("Updated".to_owned(), CellColor::Green));
                r.push(cell(timestamp.display(), CellColor::Plain));
                r.push(cell(self.sheet.mm.clone(), CellColor::Plain));
                r.push(cell(self.sheet.heat.clone(), CellColor::Plain));
                r.push(cell(self.sheet.po.clone(), CellColor::Plain));
                r.push(cell(self.sheet.name.clone(), CellColor::Plain));
                match operator {
                    Some(o) => r.push(cell(o.clone(), CellColor::Plain)),
                    None => {},
                }
            },
        }
        assert(r@.map_values(|c: Cell| c@) =~= program_row(self));
        r
    }
}

pub open spec fn is_status(s: Seq<char>) -> bool {
    s == "Active"@ || s == "Deleted"@ || s == "Updated"@
}

/// The record's status column holds one of the three statuses.
pub open spec fn status_ok(rec: &ProgramRecord) -> bool {
    rec.status matches Some(st) && is_status(st@)
}

/// The record names an updated program whose WBS column is not a WBS element.
pub open spec fn bad_wbs(rec: &ProgramRecord) -> bool {
    &&& rec.status matches Some(st) && st@ == "Updated"@
    &&& rec.wbs matches Some(w) && !(crate::wbs::has_hd(w@) || crate::wbs::has_legacy(w@))
}

/// Every column a program needs is there and holds what it must.
pub open spec fn record_ok(rec: &ProgramRecord) -> bool {
    &&& rec.timestamp is Some
    &&& rec.status matches Some(st) && is_status(st@)
    &&& rec.program_name is Some
    &&& rec.sheet_name is Some
    &&& !bad_wbs(rec)
}

impl Program {
    /// Reads a program from the columns of its status row. Material master,
    /// heat and purchase order default to empty; heat, purchase order,
    /// WBS and operator are read for updated programs only. The columns are
    /// checked in the order timestamp, status, name, sheet, WBS.
    pub fn from_record(rec: ProgramRecord) -> (r: Result<Program, RecordError>)
        ensures
            r is Ok <==> record_ok(&rec),
            rec.timestamp is None ==> r matches Err(RecordError::Missing(Column::Timestamp)),
            rec.timestamp is Some && rec.status is None ==> r matches Err(
                RecordError::Missing(Column::Status),
            ),
            rec.timestamp is Some && rec.status is Some && !status_ok(&rec) ==> (r matches Err(
                RecordError::UnexpectedStatus(e),
            ) && e@ == rec.status->0@),
            rec.timestamp is Some && status_ok(&rec) && rec.program_name is None ==> r matches Err(
                RecordError::Missing(Column::ProgramName),
            ),
            rec.timestamp is Some && status_ok(&rec) && rec.program_name is Some
                && rec.sheet_name is None ==> r matches Err(RecordError::Missing(Column::SheetName)),
            rec.timestamp is Some && rec.program_name is Some && rec.sheet_name is Some && bad_wbs(
                &rec,
            ) ==> (r matches Err(RecordError::InvalidWbs(m)) && m@ == wbs_error_message(
                rec.wbs->0@,
            )),
            r matches Ok(p) ==> {
                &&& p.name@ == rec.program_name->0@
                &&& p.sheet.name@ == rec.sheet_name->0@
                &&& p.sheet.mm@ == or_empty(rec.material_master)
                &&& if rec.status->0@ == "Updated"@ {
                    &&& p.state matches ProgramState::Updated { timestamp, operator } && timestamp
                        == rec.timestamp->0 && (match (operator, rec.operator) {
                        (Some(a), Some(b)) => a@ == b@,
                        (None, None) => true,
                        _ => false,
                    })
                    &&& p.sheet.heat@ == or_empty(rec.heat_number)
                    &&& p.sheet.po@ == or_empty(rec.po_number)
                    &&& (match rec.wbs {
                        Some(w) => p.sheet.wbs matches Some(x) && reads_as(w@, x),
                        None => p.sheet.wbs is None,
                    })
                } else {
                    &&& if rec.status->0@ == "Active"@ {
                        p.state == ProgramState::Active(rec.timestamp->0)
                    } else {
                        p.state == ProgramState::Deleted(rec.timestamp->0)
                    }
                    &&& p.sheet.heat@ == Seq::<char>::empty()
                    &&& p.sheet.po@ == Seq::<char>::empty()
                    &&& p.sheet.wbs is None
                }
            },
    {
        let timestamp = match rec.timestamp {
            Some(t) => t,
            None => return Err(RecordError::Missing(Column::Timestamp)),
        };
        let status = match rec.status {
            Some(s) => s,
            None => return Err(RecordError::Missing(Column::Status)),
        };
        let updated = str_eq(&status, "Updated");
        let active = str_eq(&status, "Active");
        let deleted = str_eq(&status, "Deleted");
        if !(updated || active || deleted) {
            return Err(RecordError::UnexpectedStatus(status));
        }
        let name = match rec.program_name {
            Some(n) => n,
            None => return Err(RecordError::Missing(Column::ProgramName)),
        };
        let sheet_name = match rec.sheet_name {
            Some(n) => n,
            None => return Err(RecordError::Missing(Column::SheetName)),
        };
        let mm = take_or_empty(rec.material_master);
        if updated {
            let wbs = match rec.wbs {
                Some(w) => match Wbs::try_from(w.as_str()) {
                    Ok(x) => Some(x),
                    Err(m) => return Err(RecordError::InvalidWbs(m)),
                },
                None => None,
            };
            Ok(
                Program {
                    name,
                    state: ProgramState::Updated { timestamp, operator: rec.operator },
                    sheet: Sheet {
                        name: sheet_name,
                        mm,
                        heat: take_or_empty(rec.heat_number),
                        po: take_or_empty(rec.po_number),
                        wbs,
                    },
                },
            )
        } else {
            let state = if active {
                ProgramState::Active(timestamp)
            } else {
                ProgramState::Deleted(timestamp)
            };
            Ok(
                Program {
                    name,
                    state,
                    sheet: Sheet {
                        name: sheet_name,
                        mm,
                        heat: String::new(),
                        po: String::new(),
                        wbs: None,
                    },
                },
            )
        }
    }
}

} // verus!
