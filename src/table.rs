//! The model behind the console's result table: a fixed header, the rows
//! received so far, and the notice shown under the table.

use vstd::prelude::*;

use crate::input::UiRequest;
use crate::text::push_str;

verus! {

/// A notice under the table: information or an error.
#[derive(Debug)]
pub enum Notice {
    Info(String),
    Error(String),
}

/// The abstract value of a [`Notice`].
pub enum NoticeView {
    Info(Seq<char>),
    Error(Seq<char>),
}

impl View for Notice {
    type V = NoticeView;

    open spec fn view(&self) -> NoticeView {
        match self {
            Notice::Info(m) => NoticeView::Info(m@),
            Notice::Error(m) => NoticeView::Error(m@),
        }
    }
}

/// An update for the display, from the input controller or a lookup.
#[derive(Debug)]
pub enum DisplayUpdate<T> {
    /// A row found by a lookup.
    DbResult(T),
    /// A message, shown as an error.
    Message(String),
    /// Repaint, nothing else.
    Redraw,
    /// Put the table on the system clipboard.
    CopyToClipboard,
    /// Empty the table.
    ClearTable,
}

/// The abstract value of a [`DisplayUpdate`].
pub enum UpdateView<T> {
    DbResult(T),
    Message(Seq<char>),
    Redraw,
    CopyToClipboard,
    ClearTable,
}

impl<T> View for DisplayUpdate<T> {
    type V = UpdateView<T>;

    open spec fn view(&self) -> UpdateView<T> {
        match self {
            DisplayUpdate::DbResult(r) => UpdateView::DbResult(*r),
            DisplayUpdate::Message(m) => UpdateView::Message(m@),
            DisplayUpdate::Redraw => UpdateView::Redraw,
            DisplayUpdate::CopyToClipboard => UpdateView::CopyToClipboard,
            DisplayUpdate::ClearTable => UpdateView::ClearTable,
        }
    }
}

impl<T> DisplayUpdate<T> {
    /// The display update for a request of the input controller.
    pub fn from_request(r: UiRequest) -> (u: Self)
        ensures
            u@ == (match r@ {
                crate::input::UiSignal::Message(m) => UpdateView::<T>::Message(m),
                crate::input::UiSignal::Redraw => UpdateView::Redraw,
                crate::input::UiSignal::CopyToClipboard => UpdateView::CopyToClipboard,
                crate::input::UiSignal::ClearTable => UpdateView::ClearTable,
            }),
    {
        match r {
            UiRequest::Message(m) => DisplayUpdate::Message(m),
            UiRequest::Redraw => DisplayUpdate::Redraw,
            UiRequest::CopyToClipboard => DisplayUpdate::CopyToClipboard,
            UiRequest::ClearTable => DisplayUpdate::ClearTable,
        }
    }
}

/// What the renderer does after an update has been taken into the model.
#[derive(Debug, Clone, Copy, PartialEq, Eq, Structural)]
pub enum RenderAction {
    /// Repaint the whole pane.
    Redraw,
    /// Put the table, without styling, on the clipboard, then report the
    /// outcome with `clipboard_done`.
    CopyTable,
}

/// The abstract state of a table: header, rows, notice.
pub struct TableState<T> {
    pub header: Seq<Seq<char>>,
    pub rows: Seq<T>,
    pub notice: Option<NoticeView>,
}

pub open spec fn cleared_message() -> Seq<char> {
    "table cleared"@
}

pub open spec fn copied_message() -> Seq<char> {
    "table written to clipboard"@
}

pub open spec fn copy_failed_message() -> Seq<char> {
    "failed to write table to clipboard"@
}

impl<T> TableState<T> {
    /// The model after one update.
    pub open spec fn applied(self, u: UpdateView<T>) -> TableState<T> {
        match u {
            UpdateView::DbResult(r) => TableState { rows: self.rows.push(r), notice: None, ..self },
            UpdateView::Message(m) => TableState { notice: Some(NoticeView::Error(m)), ..self },
            UpdateView::ClearTable => TableState {
                rows: Seq::empty(),
                notice: Some(NoticeView::Info(cleared_message())),
                ..self
            },
            _ => self,
        }
    }

    /// The model after a sequence of updates, in order.
    pub open spec fn applied_all(self, us: Seq<UpdateView<T>>) -> TableState<T>
        decreases us.len(),
    {
        if us.len() == 0 {
            self
        } else {
            self.applied(us[0]).applied_all(us.drop_first())
        }
    }
}

/// The rows that a sequence of updates carries, in order.
pub open spec fn results_of<T>(us: Seq<UpdateView<T>>) -> Seq<T>
    decreases us.len(),
{
    if us.len() == 0 {
        Seq::empty()
    } else {
        let rest = results_of(us.drop_first());
        match us[0] {
            UpdateView::DbResult(r) => seq![r] + rest,
            _ => rest,
        }
    }
}

/// The header, the rows, and the notice of the console's table.
#[derive(Debug)]
pub struct TableModel<T> {
    header: Vec<String>,
    rows: Vec<T>,
    notice: Option<Notice>,
}

impl<T> View for TableModel<T> {
    type V = TableState<T>;

    closed spec fn view(&self) -> TableState<T> {
        TableState {
            header: self.header@.map_values(|h: String| h@),
            rows: self.rows@,
            notice: match self.notice {
                Some(n) => Some(n@),
                None => None,
            },
        }
    }
}

impl<T> TableModel<T> {
    /// An empty table with `header`, and no notice.
    pub fn new(header: Vec<String>) -> (r: Self)
        ensures
            r@.header == header@.map_values(|h: String| h@),
            r@.rows == Seq::<T>::empty(),
            r@.notice is None,
    {
        TableModel { header, rows: Vec::new(), notice: None }
    }

    pub fn header(&self) -> (r: &Vec<String>)
        ensures
            r@.map_values(|h: String| h@) == self@.header,
    {
        &self.header
    }

    pub fn rows(&self) -> (r: &Vec<T>)
        ensures
            r@ == self@.rows,
    {
        &self.rows
    }

    pub fn row_count(&self) -> (r: usize)
        ensures
            r == self@.rows.len(),
    {
        self.rows.len()
    }

    pub fn is_empty(&self) -> (r: bool)
        ensures
            r == (self@.rows.len() == 0),
    {
        self.rows.len() == 0
    }

    pub fn notice(&self) -> (r: &Option<Notice>)
        ensures
            (match *r {
                Some(n) => Some(n@),
                None => None,
            }) == self@.notice,
    {
        &self.notice
    }

    /// Empties the table; the header stays.
    pub fn clear(&mut self)
        ensures
            final(self)@.header == old(self)@.header,
            final(self)@.rows == Seq::<T>::empty(),
            final(self)@.notice == old(self)@.notice,
    {
        self.rows = Vec::new();
    }

    /// Takes one update into the model and says what the renderer is to do.
    pub fn apply(&mut self, u: DisplayUpdate<T>) -> (r: RenderAction)
        ensures
            final(self)@ == old(self)@.applied(u@),
            r == (if u@ is CopyToClipboard {
                RenderAction::CopyTable
            } else {
                RenderAction::Redraw
            }),
    {
        match u {
            DisplayUpdate::DbResult(row) => {
                self.rows.push(row);
                self.notice = None;
                RenderAction::Redraw
            },
            DisplayUpdate::Message(m) => {
                self.notice = Some(Notice::Error(m));
                RenderAction::Redraw
            },
            DisplayUpdate::Redraw => RenderAction::Redraw,
            DisplayUpdate::CopyToClipboard => RenderAction::CopyTable,
            DisplayUpdate::ClearTable => {
                self.clear();
                let mut m = String::new();
                push_str(&mut m, "table cleared");
                self.notice = Some(Notice::Info(m));
                proof {
                    reveal_strlit("table cleared");
                }
                RenderAction::Redraw
            },
        }
    }

    /// Records how putting the table on the clipboard went.
    pub fn clipboard_done(&mut self, ok: bool)
        ensures
            final(self)@.header == old(self)@.header,
            final(self)@.rows == old(self)@.rows,
            final(self)@.notice == Some(
                if ok {
                    NoticeView::Info(copied_message())
                } else {
                    NoticeView::Error(copy_failed_message())
                },
            ),
    {
        let mut m = String::new();
        if ok {
            push_str(&mut m, "table written to clipboard");
            self.notice = Some(Notice::Info(m));
        } else {
            push_str(&mut m, "failed to write table to clipboard");
            self.notice = Some(Notice::Error(m));
        }
    }
}

/// How one lookup against the store went.
#[derive(Debug)]
pub enum LookupOutcome<T> {
    /// The store answered with a row.
    Found(T),
    /// The store answered with no row.
    NotFound,
    /// The query failed.
    QueryFailed,
    /// The query ran but its row could not be read.
    RowFailed,
}

pub open spec fn not_found_message(value: Seq<char>) -> Seq<char> {
    "Program `"@ + value + "` not found"@
}

/// What the display is sent for a lookup of `value` that went as `outcome`:
/// the row, or a message; the error behind a failure is not shown.
pub fn lookup_response<T>(value: &str, outcome: LookupOutcome<T>) -> (r: DisplayUpdate<T>)
    ensures
        r@ == (match outcome {
            LookupOutcome::Found(t) => UpdateView::DbResult(t),
            LookupOutcome::NotFound => UpdateView::Message(not_found_message(value@)),
            LookupOutcome::QueryFailed => UpdateView::Message("Failed to get database result"@),
            LookupOutcome::RowFailed => UpdateView::Message("Failed to get database results row"@),
        }),
{
    match outcome {
        LookupOutcome::Found(t) => DisplayUpdate::DbResult(t),
        LookupOutcome::NotFound => {
            let mut m = String::new();
            push_str(&mut m, "Program `");
            push_str(&mut m, value);
            push_str(&mut m, "` not found");
            DisplayUpdate::Message(m)
        },
        LookupOutcome::QueryFailed => DisplayUpdate::Message("Failed to get database result".to_owned()),
        LookupOutcome::RowFailed => DisplayUpdate::Message(
            "Failed to get database results row".to_owned(),
        ),
    }
}

/// Clearing leaves no rows and the header as it was, whatever came before.
pub proof fn lemma_clear_keeps_header<T>(s: TableState<T>)
    ensures
        s.applied(UpdateView::ClearTable).rows.len() == 0,
        s.applied(UpdateView::ClearTable).header == s.header,
{
}

/// Rows arrive in the table in the order in which their updates came,
/// whatever messages, redraws or clipboard requests come between them, as
/// long as no clear comes.
pub proof fn lemma_results_in_order<T>(s: TableState<T>, us: Seq<UpdateView<T>>)
    requires
        forall|i: int| 0 <= i < us.len() ==> !(#[trigger] us[i] is ClearTable),
    ensures
        s.applied_all(us).rows == s.rows + results_of(us),
        s.applied_all(us).header == s.header,
    decreases us.len(),
{
    if us.len() == 0 {
        assert(s.rows + Seq::<T>::empty() == s.rows);
    } else {
        let rest = us.drop_first();
        assert forall|i: int| 0 <= i < rest.len() implies !(#[trigger] rest[i] is ClearTable) by {
            assert(rest[i] == us[i + 1]);
        }
        assert(!(us[0] is ClearTable));
        lemma_results_in_order(s.applied(us[0]), rest);
        match us[0] {
            UpdateView::DbResult(r) => {
                assert(s.rows.push(r) + results_of(rest) == s.rows + (seq![r] + results_of(rest)));
            },
            _ => {},
        }
    }
}

} // verus!
