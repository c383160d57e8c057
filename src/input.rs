//! The input history and the state machine that turns terminal events into
//! edits, lookups and display requests.
//!
//! The controller does no I/O: each event yields a [`Step`] that says
//! whether to end the session, which identifiers to look up, and what to ask
//! of the display. The caller performs it.

use vstd::prelude::*;

use crate::buffer::{prefix_of, EditState, InputBuffer, SeekFrom};
use crate::text::{push_str, split_words, words, string_of};

verus! {

/// Whether the prompt line takes identifiers (showing the tips or not) or a
/// command.
#[derive(Debug, Clone, Copy, PartialEq, Eq, Structural)]
pub enum InputMode {
    Prompt(bool),
    Command,
}

/// The keys that the controller tells apart.
#[derive(Debug, Clone, Copy, PartialEq, Eq, Structural)]
pub enum KeyCode {
    Esc,
    Enter,
    Backspace,
    Delete,
    Home,
    End,
    Left,
    Right,
    Up,
    Down,
    PrintScreen,
    Char(char),
    Other,
}

/// The modifier keys held with a key: none, Shift alone, Control alone, or
/// anything else.
#[derive(Debug, Clone, Copy, PartialEq, Eq, Structural)]
pub enum Modifiers {
    Plain,
    Shift,
    Control,
    Other,
}

#[derive(Debug, Clone, Copy, PartialEq, Eq, Structural)]
pub enum KeyEventKind {
    Press,
    Repeat,
    Release,
}

#[derive(Debug, Clone, Copy, PartialEq, Eq, Structural)]
pub struct KeyEvent {
    pub code: KeyCode,
    pub modifiers: Modifiers,
    pub kind: KeyEventKind,
}

/// A terminal event.
#[derive(Debug)]
pub enum InputEvent {
    Key(KeyEvent),
    Paste(String),
    Resize,
    Mouse,
    Other,
}

/// What the controller asks of the display.
#[derive(Debug)]
pub enum UiRequest {
    Message(String),
    Redraw,
    CopyToClipboard,
    ClearTable,
}

/// The abstract value of a [`UiRequest`].
pub enum UiSignal {
    Message(Seq<char>),
    Redraw,
    CopyToClipboard,
    ClearTable,
}

impl View for UiRequest {
    type V = UiSignal;

    open spec fn view(&self) -> UiSignal {
        match self {
            UiRequest::Message(m) => UiSignal::Message(m@),
            UiRequest::Redraw => UiSignal::Redraw,
            UiRequest::CopyToClipboard => UiSignal::CopyToClipboard,
            UiRequest::ClearTable => UiSignal::ClearTable,
        }
    }
}

/// What the caller is to do after one event.
#[derive(Debug)]
pub struct Step {
    /// End the session.
    pub terminate: bool,
    /// Identifiers to look up, in this order.
    pub lookups: Vec<String>,
    /// A request for the display.
    pub ui: Option<UiRequest>,
}

/// The abstract value of a [`Step`].
pub struct StepView {
    pub terminate: bool,
    pub lookups: Seq<Seq<char>>,
    pub ui: Option<UiSignal>,
}

impl View for Step {
    type V = StepView;

    open spec fn view(&self) -> StepView {
        StepView {
            terminate: self.terminate,
            lookups: self.lookups@.map_values(|s: String| s@),
            ui: match self.ui {
                Some(u) => Some(u@),
                None => None,
            },
        }
    }
}

impl StepView {
    pub open spec fn nothing() -> StepView {
        StepView { terminate: false, lookups: Seq::empty(), ui: None }
    }

    pub open spec fn terminate() -> StepView {
        StepView { terminate: true, lookups: Seq::empty(), ui: None }
    }

    pub open spec fn ui(u: UiSignal) -> StepView {
        StepView { terminate: false, lookups: Seq::empty(), ui: Some(u) }
    }
}

/// The commands of command mode.
pub enum Command {
    Reset,
    Clear,
    Print,
    Unknown,
}

/// `a` is `b`, or the capital of the small ASCII letter `b`.
pub open spec fn same_letter(a: char, b: char) -> bool {
    a == b || ('A' <= a <= 'Z' && a as u32 + 32 == b as u32)
}

/// `t` spells the lower-case word `w`, letters in either case.
pub open spec fn spells(t: Seq<char>, w: Seq<char>) -> bool {
    t.len() == w.len() && forall|i: int| 0 <= i < t.len() ==> same_letter(t[i], w[i])
}

/// `t` names the command `short` or `long`.
pub open spec fn names(t: Seq<char>, short: Seq<char>, long: Seq<char>) -> bool {
    spells(t, short) || spells(t, long)
}

fn spells_exec(t: &Vec<char>, w: &Vec<char>) -> (r: bool)
    ensures
        r == spells(t@, w@),
{
    if t.len() != w.len() {
        return false;
    }
    let mut i: usize = 0;
    while i < t.len()
        invariant
            t.len() == w.len(),
            i <= t.len(),
            forall|j: int| 0 <= j < i ==> same_letter(t@[j], w@[j]),
        decreases t.len() - i,
    {
        let a = t[i];
        let b = w[i];
        if !(a == b || ('A' <= a && a <= 'Z' && a as u32 + 32 == b as u32)) {
            return false;
        }
        i = i + 1;
    }
    true
}

fn command_of_exec(t: &Vec<char>) -> (r: Command)
    ensures
        r == command_of(t@),
{
    if spells_exec(t, &vec![':', 'r']) || spells_exec(t, &vec![':', 'r', 'e', 's', 'e', 't']) {
        Command::Reset
    } else if spells_exec(t, &vec![':', 'c']) || spells_exec(t, &vec![':', 'c', 'l', 'e', 'a', 'r']) {
        Command::Clear
    } else if spells_exec(t, &vec![':', 'p']) || spells_exec(t, &vec![':', 'p', 'r', 'i', 'n', 't']) {
        Command::Print
    } else {
        Command::Unknown
    }
}

/// The command that a command line names.
pub open spec fn command_of(t: Seq<char>) -> Command {
    if names(t, seq![':', 'r'], seq![':', 'r', 'e', 's', 'e', 't']) {
        Command::Reset
    } else if names(t, seq![':', 'c'], seq![':', 'c', 'l', 'e', 'a', 'r']) {
        Command::Clear
    } else if names(t, seq![':', 'p'], seq![':', 'p', 'r', 'i', 'n', 't']) {
        Command::Print
    } else {
        Command::Unknown
    }
}

/// The message for a command line that names no command.
pub open spec fn unknown_command_message(t: Seq<char>) -> Seq<char> {
    "unrecognized command `"@ + t + "`"@
}

/// How many buffers a reset keeps.
pub const KEPT_ON_RESET: usize = 3;

/// The abstract state of the controller: the history of lines, the index
/// of the current one, and the mode.
pub struct HistoryState {
    pub buffers: Seq<EditState>,
    pub current: int,
    pub mode: InputMode,
}

impl HistoryState {
    /// The history is never empty, `current` indexes it, and in command mode
    /// the current line is the last, pushed on entering command mode.
    pub open spec fn wf(self) -> bool {
        &&& 1 <= self.buffers.len() <= usize::MAX
        &&& 0 <= self.current < self.buffers.len()
        &&& forall|i: int| 0 <= i < self.buffers.len() ==> (#[trigger] self.buffers[i]).wf()
        &&& self.mode is Command ==> self.buffers.len() >= 2 && self.current == self.buffers.len()
            - 1
    }

    pub open spec fn cur(self) -> EditState {
        self.buffers[self.current]
    }

    /// The current line replaced by `e`.
    pub open spec fn with_cur(self, e: EditState) -> HistoryState {
        HistoryState { buffers: self.buffers.update(self.current, e), ..self }
    }

    pub open spec fn with_mode(self, m: InputMode) -> HistoryState {
        HistoryState { mode: m, ..self }
    }

    /// In prompt mode, `current` moved by `delta` and clamped to the history.
    pub open spec fn switched(self, delta: int) -> HistoryState {
        if self.mode is Prompt {
            let c = self.current + delta;
            let last = self.buffers.len() - 1;
            HistoryState { current: if c < 0 { 0 } else if c > last { last } else { c }, ..self }
        } else {
            self
        }
    }

    /// The prefix of the line before the current one, when the current line
    /// is the last and has one before it.
    pub open spec fn previous_prefix(self) -> Option<Seq<char>> {
        if self.buffers.len() > 1 && self.current == self.buffers.len() - 1 {
            Some(prefix_of(self.buffers[self.current - 1].text))
        } else {
            None
        }
    }

    /// Command mode entered: a new line holding `:` is pushed and made current.
    pub open spec fn entered_command(self) -> HistoryState {
        HistoryState {
            buffers: self.buffers.push(EditState::empty().inserted(seq![':'])),
            current: self.buffers.len() as int,
            mode: InputMode::Command,
        }
    }

    /// Command mode left: the command line is dropped and the last line of
    /// the history is current.
    pub open spec fn left_command(self) -> HistoryState {
        HistoryState {
            buffers: self.buffers.drop_last(),
            current: self.buffers.len() - 2,
            mode: InputMode::Prompt(false),
        }
    }

    /// The history after a reset: the command line dropped, then the last
    /// `KEPT_ON_RESET` lines kept, the first of them current.
    pub open spec fn reset(self) -> HistoryState {
        let base = self.buffers.drop_last();
        let k = KEPT_ON_RESET as int;
        HistoryState {
            buffers: if base.len() > k {
                base.skip(base.len() - k)
            } else {
                base
            },
            current: 0,
            mode: InputMode::Prompt(false),
        }
    }

    /// Enter on a non-empty line.
    pub open spec fn committed(self) -> (HistoryState, StepView) {
        if self.mode is Prompt {
            let p = match self.previous_prefix() {
                Some(p) => p,
                None => Seq::empty(),
            };
            let b = self.cur().prefixed(p);
            (
                HistoryState {
                    buffers: self.buffers.update(self.current, b).push(EditState::empty()),
                    current: self.buffers.len() as int,
                    mode: self.mode,
                },
                StepView { terminate: false, lookups: words(b.text), ui: None },
            )
        } else {
            let t = self.cur().text;
            match command_of(t) {
                Command::Reset => (self.reset(), StepView::nothing()),
                Command::Clear => (self.left_command(), StepView::ui(UiSignal::ClearTable)),
                Command::Print => (self.left_command(), StepView::ui(UiSignal::CopyToClipboard)),
                Command::Unknown => (
                    self.left_command(),
                    StepView::ui(UiSignal::Message(unknown_command_message(t))),
                ),
            }
        }
    }

    /// A key pressed with no modifier or with Shift alone.
    pub open spec fn on_key(self, code: KeyCode) -> (HistoryState, StepView) {
        match code {
            KeyCode::Esc => match self.mode {
                InputMode::Prompt(false) => (self, StepView::terminate()),
                InputMode::Prompt(true) => (self.with_mode(InputMode::Prompt(false)), StepView::nothing()),
                InputMode::Command => (self.left_command(), StepView::nothing()),
            },
            KeyCode::Enter => if self.cur().text.len() == 0 {
                (self, StepView::terminate())
            } else {
                self.committed()
            },
            KeyCode::Backspace => (self.with_cur(self.cur().backspaced()), StepView::nothing()),
            KeyCode::Delete => (self.with_cur(self.cur().deleted()), StepView::nothing()),
            KeyCode::Home => (self.with_cur(self.cur().sought(SeekFrom::Start(0u64))), StepView::nothing()),
            KeyCode::End => (self.with_cur(self.cur().sought(SeekFrom::End(0i64))), StepView::nothing()),
            KeyCode::Left => (self.with_cur(self.cur().sought(SeekFrom::Current(-1i64))), StepView::nothing()),
            KeyCode::Right => (self.with_cur(self.cur().sought(SeekFrom::Current(1i64))), StepView::nothing()),
            KeyCode::Up => (self.switched(-1), StepView::nothing()),
            KeyCode::Down => (self.switched(1), StepView::nothing()),
            KeyCode::Char(c) => if c == ':' {
                if self.mode is Command {
                    (self, StepView::nothing())
                } else {
                    (self.entered_command(), StepView::nothing())
                }
            } else if c == '?' {
                match self.mode {
                    InputMode::Prompt(t) => (self.with_mode(InputMode::Prompt(!t)), StepView::nothing()),
                    InputMode::Command => (self, StepView::nothing()),
                }
            } else {
                (self.with_cur(self.cur().inserted(seq![c])), StepView::nothing())
            },
            _ => (self, StepView::nothing()),
        }
    }

    /// The controller's response to one terminal event.
    pub open spec fn next(self, ev: InputEvent) -> (HistoryState, StepView) {
        match ev {
            InputEvent::Key(k) => if k.code == KeyCode::Char('c') && k.modifiers == Modifiers::Control
                && k.kind == KeyEventKind::Release {
                (self, StepView::terminate())
            } else if k.code == KeyCode::PrintScreen && k.modifiers == Modifiers::Plain && k.kind
                == KeyEventKind::Release {
                (self, StepView::ui(UiSignal::CopyToClipboard))
            } else if (k.modifiers == Modifiers::Plain || k.modifiers == Modifiers::Shift) && (k.kind
                == KeyEventKind::Press || k.kind == KeyEventKind::Repeat) {
                self.on_key(k.code)
            } else {
                (self, StepView::nothing())
            },
            InputEvent::Paste(d) => (self.with_cur(self.cur().inserted(d@)), StepView::nothing()),
            InputEvent::Resize => (self, StepView::ui(UiSignal::Redraw)),
            _ => (self, StepView::nothing()),
        }
    }
}

/// Each submitted line adds one line to the history: a fresh, empty one,
/// which becomes current.
pub proof fn lemma_submit_adds_line(h: HistoryState)
    requires
        h.wf(),
        h.mode is Prompt,
        h.cur().text.len() > 0,
    ensures
        h.on_key(KeyCode::Enter).0.buffers.len() == h.buffers.len() + 1,
        h.on_key(KeyCode::Enter).0.current == h.buffers.len(),
        h.on_key(KeyCode::Enter).0.cur() == EditState::empty(),
        !h.on_key(KeyCode::Enter).1.terminate,
{
}

/// A reset keeps exactly the last three lines of the history (the command
/// line aside) when there are at least three, and makes the first current.
pub proof fn lemma_reset_keeps_three(h: HistoryState)
    requires
        h.wf(),
        h.mode is Command,
        command_of(h.cur().text) is Reset,
        h.buffers.len() - 1 >= KEPT_ON_RESET,
    ensures
        h.on_key(KeyCode::Enter).0.buffers.len() == KEPT_ON_RESET,
        h.on_key(KeyCode::Enter).0.buffers == h.buffers.subrange(
            h.buffers.len() - 1 - KEPT_ON_RESET,
            h.buffers.len() - 1,
        ),
        h.on_key(KeyCode::Enter).0.current == 0,
        h.on_key(KeyCode::Enter).0.mode == InputMode::Prompt(false),
{
    assert(h.cur().text.len() > 0) by {
        if h.cur().text.len() == 0 {
            assert(!spells(h.cur().text, seq![':', 'r']));
            assert(!spells(h.cur().text, seq![':', 'r', 'e', 's', 'e', 't']));
        }
    }
    let base = h.buffers.drop_last();
    if base.len() > KEPT_ON_RESET {
        assert(base.skip(base.len() - KEPT_ON_RESET) == h.buffers.subrange(
            h.buffers.len() - 1 - KEPT_ON_RESET,
            h.buffers.len() - 1,
        ));
    } else {
        assert(base == h.buffers.subrange(0, h.buffers.len() - 1));
    }
}

/// Ctrl-C released, Enter on an empty line, and Escape in prompt mode with
/// the tips closed each end the session, whatever the state, and ask for no
/// further lookups.
pub proof fn lemma_terminating_inputs(h: HistoryState, kind: KeyEventKind)
    requires
        kind == KeyEventKind::Press || kind == KeyEventKind::Repeat,
    ensures
        h.next(
            InputEvent::Key(
                KeyEvent {
                    code: KeyCode::Char('c'),
                    modifiers: Modifiers::Control,
                    kind: KeyEventKind::Release,
                },
            ),
        ).1 == StepView::terminate(),
        h.cur().text.len() == 0 ==> h.next(
            InputEvent::Key(KeyEvent { code: KeyCode::Enter, modifiers: Modifiers::Plain, kind }),
        ).1 == StepView::terminate(),
        h.mode == InputMode::Prompt(false) ==> h.next(
            InputEvent::Key(KeyEvent { code: KeyCode::Esc, modifiers: Modifiers::Plain, kind }),
        ).1 == StepView::terminate(),
{
}

/// The history, current index and mode, with the controller's logic.
#[derive(Debug)]
struct Controller {
    buffers: Vec<InputBuffer>,
    buffer_id: usize,
    mode: InputMode,
}

impl View for Controller {
    type V = HistoryState;

    closed spec fn view(&self) -> HistoryState {
        HistoryState {
            buffers: self.buffers@.map_values(|b: InputBuffer| b@),
            current: self.buffer_id as int,
            mode: self.mode,
        }
    }
}

impl Controller {
    pub open spec fn wf(&self) -> bool {
        self@.wf()
    }

    /// One empty line, in prompt mode without tips.
    fn new() -> (r: Self)
        ensures
            r.wf(),
            r@.buffers == seq![EditState::empty()],
            r@.current == 0,
            r@.mode == InputMode::Prompt(false),
    {
        let r = Controller {
            buffers: vec![InputBuffer::new()],
            buffer_id: 0,
            mode: InputMode::Prompt(false),
        };
        assert(r@.buffers =~= seq![EditState::empty()]);
        r
    }

    /// The current line.
    fn buffer(&self) -> (r: &InputBuffer)
        requires
            self.wf(),
        ensures
            r@ == self@.cur(),
    {
        &self.buffers[self.buffer_id]
    }

    /// Number of lines in the history.
    fn buffer_count(&self) -> (r: usize)
        ensures
            r == self@.buffers.len(),
    {
        self.buffers.len()
    }

    /// Index of the current line.
    fn current_index(&self) -> (r: usize)
        ensures
            r == self@.current,
    {
        self.buffer_id
    }

    fn mode(&self) -> (r: InputMode)
        ensures
            r == self@.mode,
    {
        self.mode
    }

    /// In prompt mode, moves to another line of the history, clamped to it.
    fn switch_buffer(&mut self, direction: i64)
        requires
            old(self).wf(),
            direction == -1 || direction == 1,
        ensures
            final(self).wf(),
            final(self)@ == old(self)@.switched(direction as int),
    {
        if let InputMode::Prompt(_) = self.mode {
            if direction < 0 {
                if self.buffer_id > 0 {
                    self.buffer_id = self.buffer_id - 1;
                }
            } else if self.buffer_id + 1 < self.buffers.len() {
                self.buffer_id = self.buffer_id + 1;
            }
        }
    }

    /// The prefix of the line before the current one, when the current line
    /// is the last of the history and has one before it.
    fn previous_prefix(&self) -> (r: Option<String>)
        requires
            self.wf(),
        ensures
            r is Some <==> self@.previous_prefix() is Some,
            r matches Some(p) ==> p@ == self@.previous_prefix()->0,
    {
        let n = self.buffers.len();
        if n > 1 && self.buffer_id == n - 1 {
            Some(self.buffers[self.buffer_id - 1].prefix())
        } else {
            None
        }
    }

    /// What is shown dimmed before the current line as the carried prefix:
    /// `trim_prefix` of the previous prefix, once the line is not empty.
    fn prefix_hint(&self) -> (r: String)
        requires
            self.wf(),
        ensures
            r@ == (match self@.previous_prefix() {
                Some(p) => if self@.cur().text.len() > 0 {
                    crate::buffer::trimmed(p, crate::buffer::prefix_len(self@.cur().text))
                } else {
                    Seq::empty()
                },
                None => Seq::empty(),
            }),
    {
        let b = &self.buffers[self.buffer_id];
        match self.previous_prefix() {
            Some(p) => {
                if !b.is_empty() {
                    let h = b.trim_prefix(p.as_str());
                    h.to_owned()
                } else {
                    String::new()
                }
            },
            None => String::new(),
        }
    }

    /// Drops the command line and makes the last line of the history current.
    fn leave_command(&mut self)
        requires
            old(self).wf(),
            old(self)@.mode is Command,
        ensures
            final(self).wf(),
            final(self)@ == old(self)@.left_command(),
    {
        let ghost v0 = self@;
        self.buffers.pop();
        self.buffer_id = self.buffers.len() - 1;
        self.mode = InputMode::Prompt(false);
        assert(self@.buffers =~= v0.buffers.drop_last());
    }

    /// Pushes a line holding `:` and enters command mode.
    fn enter_command(&mut self)
        requires
            old(self).wf(),
            !(old(self)@.mode is Command),
            old(self)@.buffers.len() < usize::MAX,
        ensures
            final(self).wf(),
            final(self)@ == old(self)@.entered_command(),
    {
        let ghost v0 = self@;
        let mut b = InputBuffer::new();
        b.insert_char(':');
        self.buffer_id = self.buffers.len();
        self.buffers.push(b);
        self.mode = InputMode::Command;
        assert(self@.buffers =~= v0.buffers.push(EditState::empty().inserted(seq![':'])));
    }

    /// Replacing the current line changes the history's view at that index alone.
    proof fn lemma_edit_current(v0: Seq<InputBuffer>, v1: Seq<InputBuffer>, i: int)
        requires
            0 <= i < v0.len(),
            v1 == v0.update(i, v1[i]),
        ensures
            v1.map_values(|b: InputBuffer| b@) == v0.map_values(|b: InputBuffer| b@).update(
                i,
                v1[i]@,
            ),
    {
        assert(v1.map_values(|b: InputBuffer| b@) =~= v0.map_values(|b: InputBuffer| b@).update(
            i,
            v1[i]@,
        ));
    }

    /// Inserts `text` into the current line at its cursor.
    fn write_buffer(&mut self, text: &str)
        requires
            old(self).wf(),
        ensures
            final(self).wf(),
            final(self)@ == old(self)@.with_cur(old(self)@.cur().inserted(text@)),
    {
        let ghost v0 = self.buffers@;
        let i = self.buffer_id;
        self.buffers[i].write(text);
        proof {
            Self::lemma_edit_current(v0, self.buffers@, i as int);
        }
    }

    fn insert_char(&mut self, c: char)
        requires
            old(self).wf(),
        ensures
            final(self).wf(),
            final(self)@ == old(self)@.with_cur(old(self)@.cur().inserted(seq![c])),
    {
        let ghost v0 = self.buffers@;
        let i = self.buffer_id;
        self.buffers[i].insert_char(c);
        proof {
            Self::lemma_edit_current(v0, self.buffers@, i as int);
        }
    }

    fn seek(&mut self, to: SeekFrom)
        requires
            old(self).wf(),
        ensures
            final(self).wf(),
            final(self)@ == old(self)@.with_cur(old(self)@.cur().sought(to)),
    {
        let ghost v0 = self.buffers@;
        let i = self.buffer_id;
        self.buffers[i].seek(to);
        proof {
            Self::lemma_edit_current(v0, self.buffers@, i as int);
        }
    }

    fn delete(&mut self)
        requires
            old(self).wf(),
        ensures
            final(self).wf(),
            final(self)@ == old(self)@.with_cur(old(self)@.cur().deleted()),
    {
        let ghost v0 = self.buffers@;
        let i = self.buffer_id;
        self.buffers[i].delete();
        proof {
            Self::lemma_edit_current(v0, self.buffers@, i as int);
        }
    }

    fn backspace(&mut self)
        requires
            old(self).wf(),
        ensures
            final(self).wf(),
            final(self)@ == old(self)@.with_cur(old(self)@.cur().backspaced()),
    {
        let ghost v0 = self.buffers@;
        let i = self.buffer_id;
        self.buffers[i].backspace();
        proof {
            Self::lemma_edit_current(v0, self.buffers@, i as int);
        }
    }

    /// Enter on a non-empty line: in prompt mode the line, with the previous
    /// prefix carried over, is split into identifiers to look up and a fresh
    /// line is started; in command mode the command is carried out.
    fn commit_buffer(&mut self) -> (r: Step)
        requires
            old(self).wf(),
            old(self)@.buffers.len() < usize::MAX,
        ensures
            final(self).wf(),
            (final(self)@, r@) == old(self)@.committed(),
    {
        let ghost v0 = self@;
        match self.mode {
            InputMode::Prompt(_) => {
                let prefix = match self.previous_prefix() {
                    Some(p) => p,
                    None => String::new(),
                };
                let ghost b0 = self.buffers@;
                let i = self.buffer_id;
                self.buffers[i].apply_prefix(prefix.as_str());
                proof {
                    Self::lemma_edit_current(b0, self.buffers@, i as int);
                }
                let lookups = split_words(self.buffers[i].chars());
                self.buffer_id = self.buffers.len();
                let ghost b1 = self.buffers@;
                self.buffers.push(InputBuffer::new());
                proof {
                    assert(self.buffers@.map_values(|b: InputBuffer| b@) =~= b1.map_values(
                        |b: InputBuffer| b@,
                    ).push(EditState::empty()));
                }
                let r = Step { terminate: false, lookups, ui: None };
                assert(r@.lookups =~= v0.committed().1.lookups);
                r
            },
            InputMode::Command => {
                let cmd = command_of_exec(self.buffers[self.buffer_id].chars());
                match cmd {
                    Command::Reset => {
                        self.buffers.pop();
                        let n = self.buffers.len();
                        if n > KEPT_ON_RESET {
                            let ghost b1 = self.buffers@;
                            let kept = self.buffers.split_off(n - KEPT_ON_RESET);
                            self.buffers = kept;
                            assert(self.buffers@.map_values(|b: InputBuffer| b@) =~= v0.buffers.drop_last().skip(
                                n - KEPT_ON_RESET,
                            ));
                        } else {
                            assert(self.buffers@.map_values(|b: InputBuffer| b@) =~= v0.buffers.drop_last());
                        }
                        self.buffer_id = 0;
                        self.mode = InputMode::Prompt(false);
                        let r = Step { terminate: false, lookups: Vec::new(), ui: None };
                        assert(r@.lookups =~= Seq::<Seq<char>>::empty());
                        r
                    },
                    Command::Clear => {
                        self.leave_command();
                        let r = Step { terminate: false, lookups: Vec::new(), ui: Some(UiRequest::ClearTable) };
                        assert(r@.lookups =~= Seq::<Seq<char>>::empty());
                        r
                    },
                    Command::Print => {
                        self.leave_command();
                        let r = Step {
                            terminate: false,
                            lookups: Vec::new(),
                            ui: Some(UiRequest::CopyToClipboard),
                        };
                        assert(r@.lookups =~= Seq::<Seq<char>>::empty());
                        r
                    },
                    Command::Unknown => {
                        let mut m = String::new();
                        push_str(&mut m, "unrecognized command `");
                        let t = string_of(self.buffers[self.buffer_id].chars());
                        push_str(&mut m, t.as_str());
                        push_str(&mut m, "`");
                        self.leave_command();
                        let r = Step { terminate: false, lookups: Vec::new(), ui: Some(UiRequest::Message(m)) };
                        assert(r@.lookups =~= Seq::<Seq<char>>::empty());
                        r
                    },
                }
            },
        }
    }

    fn nothing() -> (r: Step)
        ensures
            r@ == StepView::nothing(),
    {
        let r = Step { terminate: false, lookups: Vec::new(), ui: None };
        assert(r@.lookups =~= Seq::<Seq<char>>::empty());
        r
    }

    fn terminate() -> (r: Step)
        ensures
            r@ == StepView::terminate(),
    {
        let r = Step { terminate: true, lookups: Vec::new(), ui: None };
        assert(r@.lookups =~= Seq::<Seq<char>>::empty());
        r
    }

    fn ui(u: UiRequest) -> (r: Step)
        ensures
            r@ == StepView::ui(u@),
    {
        let r = Step { terminate: false, lookups: Vec::new(), ui: Some(u) };
        assert(r@.lookups =~= Seq::<Seq<char>>::empty());
        r
    }

    /// A key pressed with no modifier or with Shift alone.
    fn handle_key(&mut self, code: KeyCode) -> (r: Step)
        requires
            old(self).wf(),
            old(self)@.buffers.len() < usize::MAX,
        ensures
            final(self).wf(),
            (final(self)@, r@) == old(self)@.on_key(code),
    {
        match code {
            KeyCode::Esc => match self.mode {
                InputMode::Prompt(false) => Self::terminate(),
                InputMode::Prompt(true) => {
                    self.mode = InputMode::Prompt(false);
                    Self::nothing()
                },
                InputMode::Command => {
                    self.leave_command();
                    Self::nothing()
                },
            },
            KeyCode::Enter => {
                if self.buffers[self.buffer_id].is_empty() {
                    Self::terminate()
                } else {
                    self.commit_buffer()
                }
            },
            KeyCode::Backspace => {
                self.backspace();
                Self::nothing()
            },
            KeyCode::Delete => {
                self.delete();
                Self::nothing()
            },
            KeyCode::Home => {
                self.seek(SeekFrom::Start(0));
                Self::nothing()
            },
            KeyCode::End => {
                self.seek(SeekFrom::End(0));
                Self::nothing()
            },
            KeyCode::Left => {
                self.seek(SeekFrom::Current(-1));
                Self::nothing()
            },
            KeyCode::Right => {
                self.seek(SeekFrom::Current(1));
                Self::nothing()
            },
            KeyCode::Up => {
                self.switch_buffer(-1);
                Self::nothing()
            },
            KeyCode::Down => {
                self.switch_buffer(1);
                Self::nothing()
            },
            KeyCode::Char(c) => {
                if c == ':' {
                    if self.mode != InputMode::Command {
                        self.enter_command();
                    }
                } else if c == '?' {
                    match self.mode {
                        InputMode::Prompt(t) => self.mode = InputMode::Prompt(!t),
                        InputMode::Command => {},
                    }
                } else {
                    self.insert_char(c);
                }
                Self::nothing()
            },
            _ => Self::nothing(),
        }
    }

    /// A key event: keys other than the two global ones count only when
    /// pressed or repeated with no modifier or with Shift alone.
    fn handle_key_input(&mut self, event: KeyEvent) -> (r: Step)
        requires
            old(self).wf(),
            old(self)@.buffers.len() < usize::MAX,
        ensures
            final(self).wf(),
            (final(self)@, r@) == old(self)@.next(InputEvent::Key(event)),
    {
        if event.code == KeyCode::Char('c') && event.modifiers == Modifiers::Control && event.kind
            == KeyEventKind::Release {
            Self::terminate()
        } else if event.code == KeyCode::PrintScreen && event.modifiers == Modifiers::Plain
            && event.kind == KeyEventKind::Release {
            Self::ui(UiRequest::CopyToClipboard)
        } else if (event.modifiers == Modifiers::Plain || event.modifiers == Modifiers::Shift) && (
        event.kind == KeyEventKind::Press || event.kind == KeyEventKind::Repeat) {
            self.handle_key(event.code)
        } else {
            Self::nothing()
        }
    }

    /// The controller's response to one terminal event; the state moves and
    /// the step is returned as `HistoryState::next` says.
    fn handle_input(&mut self, event: InputEvent) -> (r: Step)
        requires
            old(self).wf(),
            old(self)@.buffers.len() < usize::MAX,
        ensures
            final(self).wf(),
            (final(self)@, r@) == old(self)@.next(event),
    {
        match event {
            InputEvent::Key(k) => self.handle_key_input(k),
            InputEvent::Paste(data) => {
                self.write_buffer(data.as_str());
                Self::nothing()
            },
            InputEvent::Resize => Self::ui(UiRequest::Redraw),
            _ => Self::nothing(),
        }
    }
}

/// The input line history and mode of the console.
#[derive(Debug)]
pub struct ProgramInputHandler {
    core: Controller,
}

impl View for ProgramInputHandler {
    type V = HistoryState;

    closed spec fn view(&self) -> HistoryState {
        self.core@
    }
}

impl ProgramInputHandler {
    #[verifier::type_invariant]
    spec fn inv(&self) -> bool {
        self.core.wf()
    }

    pub open spec fn wf(&self) -> bool {
        self@.wf()
    }

    /// Moves the controller out, leaving a fresh one in its place.
    fn take_core(&mut self) -> (r: Controller)
        ensures
            r@ == old(self)@,
            r.wf(),
    {
        proof {
            use_type_invariant(&*self);
        }
        let mut r = Controller::new();
        std::mem::swap(&mut r, &mut self.core);
        r
    }

    /// One empty line, in prompt mode without tips.
    pub fn new() -> (r: Self)
        ensures
            r.wf(),
            r@.buffers == seq![EditState::empty()],
            r@.current == 0,
            r@.mode == InputMode::Prompt(false),
    {
        ProgramInputHandler { core: Controller::new() }
    }

    /// The current line.
    pub fn buffer(&self) -> (r: &InputBuffer)
        ensures
            self.wf(),
            r@ == self@.cur(),
    {
        proof {
            use_type_invariant(self);
        }
        self.core.buffer()
    }

    /// Number of lines in the history.
    pub fn buffer_count(&self) -> (r: usize)
        ensures
            r == self@.buffers.len(),
    {
        self.core.buffer_count()
    }

    /// Index of the current line.
    pub fn current_index(&self) -> (r: usize)
        ensures
            r == self@.current,
    {
        self.core.current_index()
    }

    pub fn mode(&self) -> (r: InputMode)
        ensures
            r == self@.mode,
    {
        self.core.mode()
    }

    /// The prefix of the line before the current one, when the current line
    /// is the last of the history and has one before it.
    pub fn previous_prefix(&self) -> (r: Option<String>)
        ensures
            r is Some <==> self@.previous_prefix() is Some,
            r matches Some(p) ==> p@ == self@.previous_prefix()->0,
    {
        proof {
            use_type_invariant(self);
        }
        self.core.previous_prefix()
    }

    /// What is shown dimmed before the current line as the carried prefix:
    /// `trim_prefix` of the previous prefix, once the line is not empty.
    pub fn prefix_hint(&self) -> (r: String)
        ensures
            r@ == (match self@.previous_prefix() {
                Some(p) => if self@.cur().text.len() > 0 {
                    crate::buffer::trimmed(p, crate::buffer::prefix_len(self@.cur().text))
                } else {
                    Seq::empty()
                },
                None => Seq::empty(),
            }),
    {
        proof {
            use_type_invariant(self);
        }
        self.core.prefix_hint()
    }

    /// Inserts `text` into the current line at its cursor.
    pub fn write_buffer(&mut self, text: &str)
        ensures
            final(self)@ == old(self)@.with_cur(old(self)@.cur().inserted(text@)),
    {
        let mut core = self.take_core();
        core.write_buffer(text);
        self.core = core;
    }

    /// A key event: keys other than the two global ones count only when
    /// pressed or repeated with no modifier or with Shift alone.
    pub fn handle_key_input(&mut self, event: KeyEvent) -> (r: Step)
        requires
            old(self)@.buffers.len() < usize::MAX,
        ensures
            (final(self)@, r@) == old(self)@.next(InputEvent::Key(event)),
    {
        let mut core = self.take_core();
        let r = core.handle_key_input(event);
        self.core = core;
        r
    }

    /// The controller's response to one terminal event; the state moves and
    /// the step is returned as `HistoryState::next` says.
    pub fn handle_input(&mut self, event: InputEvent) -> (r: Step)
        requires
            old(self)@.buffers.len() < usize::MAX,
        ensures
            (final(self)@, r@) == old(self)@.next(event),
    {
        let mut core = self.take_core();
        let r = core.handle_input(event);
        self.core = core;
        r
    }
}

} // verus!
