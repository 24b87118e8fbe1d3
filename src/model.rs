//! The client's state: what the dispatcher reads and changes, and the events
//! and commands that pass through it.
use tui_input::{Input, InputRequest};
use vstd::prelude::*;

use crate::fps::FpsCounter;
use crate::logging::LogRecord;

verus! {

/// Whether keys edit the input line or act as commands.
#[derive(PartialEq, Eq, Structural, Clone, Copy, Debug)]
pub enum InputMode {
    Normal,
    Editing,
}

/// The view shown: the chat or the log records.
#[derive(PartialEq, Eq, Structural, Clone, Copy, Debug)]
pub enum ActiveTab {
    Chat,
    Logs,
}

impl ActiveTab {
    /// The position of the tab in the tab bar.
    pub fn get_idx(&self) -> (r: usize)
        ensures
            r == (if *self == ActiveTab::Chat { 0usize } else { 1usize }),
    {
        match self {
            ActiveTab::Chat => 0,
            ActiveTab::Logs => 1,
        }
    }
}

/// The other tab.
pub open spec fn other_tab(t: ActiveTab) -> ActiveTab {
    if t == ActiveTab::Chat {
        ActiveTab::Logs
    } else {
        ActiveTab::Chat
    }
}

/// The key of a key press, as far as the dispatcher tells keys apart.
#[derive(PartialEq, Eq, Structural, Clone, Copy, Debug)]
pub enum KeyCode {
    Char(char),
    Enter,
    Esc,
    Tab,
    Other,
}

/// A change to the input line, counted in characters.
#[derive(PartialEq, Eq, Structural, Clone, Copy, Debug)]
pub enum EditRequest {
    InsertChar(char),
    GoToPrevChar,
    GoToNextChar,
    GoToStart,
    GoToEnd,
    DeletePrevChar,
    DeleteNextChar,
    DeleteLine,
    DeleteTillEnd,
    /// Move to the start of the word before the cursor.
    GoToPrevWord,
    /// Move to the start of the word after the cursor.
    GoToNextWord,
    /// Delete back to the start of the word before the cursor.
    DeletePrevWord,
    /// Delete forward to the start of the word after the cursor.
    DeleteNextWord,
}

/// A key press: its key, and the change it asks of the input line, if any.
#[derive(PartialEq, Eq, Structural, Clone, Copy, Debug)]
pub struct KeyPress {
    pub code: KeyCode,
    pub edit: Option<EditRequest>,
}

/// Whether `c` is alphanumeric, as `char::is_alphanumeric` answers; the line
/// editor's words are runs of such characters.
pub uninterp spec fn is_alnum(c: char) -> bool;

/// The position left of `cursor` reached by passing over characters that are
/// not word characters.
pub open spec fn skip_other_left(value: Seq<char>, cursor: nat, word: spec_fn(char) -> bool) -> nat
    decreases cursor,
{
    if cursor > 0 && !word(value[cursor - 1]) {
        skip_other_left(value, (cursor - 1) as nat, word)
    } else {
        cursor
    }
}

/// The position left of `cursor` reached by passing over word characters.
pub open spec fn skip_alnum_left(value: Seq<char>, cursor: nat, word: spec_fn(char) -> bool) -> nat
    decreases cursor,
{
    if cursor > 0 && word(value[cursor - 1]) {
        skip_alnum_left(value, (cursor - 1) as nat, word)
    } else {
        cursor
    }
}

/// The position right of `cursor` reached by passing over characters that are
/// not word characters.
pub open spec fn skip_other_right(value: Seq<char>, cursor: nat, word: spec_fn(char) -> bool) -> nat
    decreases value.len() - cursor,
{
    if cursor < value.len() && !word(value[cursor as int]) {
        skip_other_right(value, cursor + 1, word)
    } else {
        cursor
    }
}

/// The position right of `cursor` reached by passing over word characters.
pub open spec fn skip_alnum_right(value: Seq<char>, cursor: nat, word: spec_fn(char) -> bool) -> nat
    decreases value.len() - cursor,
{
    if cursor < value.len() && word(value[cursor as int]) {
        skip_alnum_right(value, cursor + 1, word)
    } else {
        cursor
    }
}

/// The start of the word before `cursor`.
pub open spec fn prev_word_start(value: Seq<char>, cursor: nat, word: spec_fn(char) -> bool) -> nat {
    skip_alnum_left(value, skip_other_left(value, cursor, word), word)
}

/// The start of the word after `cursor`.
pub open spec fn next_word_start(value: Seq<char>, cursor: nat, word: spec_fn(char) -> bool) -> nat {
    skip_other_right(value, skip_alnum_right(value, cursor, word), word)
}

proof fn lemma_skip_left_bounds(value: Seq<char>, cursor: nat, word: spec_fn(char) -> bool)
    ensures
        skip_other_left(value, cursor, word) <= cursor,
        skip_alnum_left(value, cursor, word) <= cursor,
    decreases cursor,
{
    if cursor > 0 {
        lemma_skip_left_bounds(value, (cursor - 1) as nat, word);
    }
}

proof fn lemma_skip_right_bounds(value: Seq<char>, cursor: nat, word: spec_fn(char) -> bool)
    requires
        cursor <= value.len(),
    ensures
        cursor <= skip_other_right(value, cursor, word) <= value.len(),
        cursor <= skip_alnum_right(value, cursor, word) <= value.len(),
    decreases value.len() - cursor,
{
    if cursor < value.len() {
        lemma_skip_right_bounds(value, cursor + 1, word);
    }
}

/// The word positions stay within the line: the previous word starts at or
/// before the cursor, the next one at or after it.
pub proof fn lemma_word_starts_in_line(value: Seq<char>, cursor: nat, word: spec_fn(char) -> bool)
    requires
        cursor <= value.len(),
    ensures
        prev_word_start(value, cursor, word) <= cursor,
        cursor <= next_word_start(value, cursor, word) <= value.len(),
{
    lemma_skip_left_bounds(value, cursor, word);
    lemma_skip_left_bounds(value, skip_other_left(value, cursor, word), word);
    lemma_skip_right_bounds(value, cursor, word);
    lemma_skip_right_bounds(value, skip_alnum_right(value, cursor, word), word);
}

/// `(value, cursor)` after `req`, for a cursor within the value, where words
/// are runs of the characters that `word` holds of.
pub open spec fn edited(
    value: Seq<char>,
    cursor: nat,
    req: EditRequest,
    word: spec_fn(char) -> bool,
) -> (Seq<char>, nat) {
    match req {
        EditRequest::InsertChar(c) => (value.take(cursor as int) + seq![c] + value.skip(
            cursor as int,
        ), cursor + 1),
        EditRequest::GoToPrevChar => (value, if cursor == 0 {
            0
        } else {
            (cursor - 1) as nat
        }),
        EditRequest::GoToNextChar => (value, if cursor == value.len() {
            cursor
        } else {
            cursor + 1
        }),
        EditRequest::GoToStart => (value, 0),
        EditRequest::GoToEnd => (value, value.len()),
        EditRequest::DeletePrevChar => if cursor == 0 {
            (value, 0)
        } else {
            (value.remove(cursor - 1), (cursor - 1) as nat)
        },
        EditRequest::DeleteNextChar => if cursor == value.len() {
            (value, cursor)
        } else {
            (value.remove(cursor as int), cursor)
        },
        EditRequest::DeleteLine => (seq![], 0),
        EditRequest::DeleteTillEnd => (value.take(cursor as int), cursor),
        EditRequest::GoToPrevWord => (value, prev_word_start(value, cursor, word)),
        EditRequest::GoToNextWord => (value, next_word_start(value, cursor, word)),
        EditRequest::DeletePrevWord => {
            let p = prev_word_start(value, cursor, word);
            (value.take(p as int) + value.skip(cursor as int), p)
        },
        EditRequest::DeleteNextWord => {
            let n = next_word_start(value, cursor, word);
            (value.take(cursor as int) + value.skip(n as int), cursor)
        },
    }
}

/// Relies on tui_input's `Input::new`, `Input::with_cursor`, `Input::handle`,
/// `Input::value` and `Input::cursor`: the line editor applies one request to
/// a value and a cursor, with the effect that `edited` states.
#[verifier::external_body]
fn handle_request(value: String, cursor: usize, req: EditRequest) -> (r: (String, usize))
    requires
        cursor <= value@.len(),
        req is InsertChar ==> value@.len() < usize::MAX,
    ensures
        (r.0@, r.1 as nat) == edited(value@, cursor as nat, req, |c: char| is_alnum(c)),
{
    let mut input = Input::new(value).with_cursor(cursor);
    input.handle(match req {
        EditRequest::InsertChar(c) => InputRequest::InsertChar(c),
        EditRequest::GoToPrevChar => InputRequest::GoToPrevChar,
        EditRequest::GoToNextChar => InputRequest::GoToNextChar,
        EditRequest::GoToPrevWord => InputRequest::GoToPrevWord,
        EditRequest::GoToNextWord => InputRequest::GoToNextWord,
        EditRequest::GoToStart => InputRequest::GoToStart, EditRequest::GoToEnd => InputRequest::GoToEnd,
        EditRequest::DeletePrevChar => InputRequest::DeletePrevChar,
        EditRequest::DeleteNextChar => InputRequest::DeleteNextChar,
        EditRequest::DeletePrevWord => InputRequest::DeletePrevWord,
        EditRequest::DeleteNextWord => InputRequest::DeleteNextWord,
        EditRequest::DeleteLine => InputRequest::DeleteLine, EditRequest::DeleteTillEnd => InputRequest::DeleteTillEnd,
    });
    (input.value().to_string(), input.cursor())
}

/// The line being typed, with a cursor counted in characters.
pub struct InputBuffer {
    pub value: String,
    pub cursor: usize,
}

impl InputBuffer {
    /// The cursor stands within the value.
    pub open spec fn wf(&self) -> bool {
        self.cursor <= self.value@.len()
    }

    /// An empty line.
    pub fn new() -> (r: Self)
        ensures
            r.wf(),
            r.value@ == Seq::<char>::empty(),
            r.cursor == 0,
    {
        InputBuffer { value: String::new(), cursor: 0 }
    }

    /// Applies one change to the line.
    pub fn apply(&mut self, req: EditRequest)
        requires
            old(self).wf(),
            req is InsertChar ==> old(self).value@.len() < usize::MAX,
        ensures
            final(self).wf(),
            (final(self).value@, final(self).cursor as nat) == edited(
                old(self).value@,
                old(self).cursor as nat,
                req,
                |c: char| is_alnum(c),
            ),
    {
        let value = self.value.clone();
        proof {
            lemma_word_starts_in_line(self.value@, self.cursor as nat, |c: char| is_alnum(c));
        }
        let (v, c) = handle_request(value, self.cursor, req);
        self.value = v;
        self.cursor = c;
    }

    /// Empties the line.
    pub fn reset(&mut self)
        ensures
            final(self).wf(),
            final(self).value@ == Seq::<char>::empty(),
            final(self).cursor == 0,
    {
        self.value = String::new();
        self.cursor = 0;
    }
}

} // verus!

verus! {

/// An event handed to the dispatcher.
#[derive(Clone, Debug)]
pub enum Message {
    Quit,
    Error,
    Tick,
    Render,
    Key(KeyPress),
    /// A line that came from the server, without its newline.
    ReceivedNetworkMessage(String),
    /// A line to send to the server as it stands.
    SendNetworkMessage(String),
    /// A log record.
    Log(LogRecord),
}

/// What the dispatcher asks of the loop that runs it.
#[derive(Clone, Debug)]
pub enum Command {
    /// Leave the main loop.
    Quit,
    /// Send this line to the server.
    Send(String),
    /// Draw the screen from the model.
    Draw,
}

/// A command, with its text as characters.
pub enum CommandView {
    Quit,
    Send(Seq<char>),
    Draw,
}

impl View for Command {
    type V = CommandView;

    open spec fn view(&self) -> CommandView {
        match self {
            Command::Quit => CommandView::Quit,
            Command::Send(t) => CommandView::Send(t@),
            Command::Draw => CommandView::Draw,
        }
    }
}

/// The command an optional command stands for.
pub open spec fn command_view(c: Option<Command>) -> Option<CommandView> {
    match c {
        Some(c) => Some(c@),
        None => None,
    }
}

/// The client's state.
pub struct Model {
    pub fps_counter: FpsCounter,
    pub input: InputBuffer,
    pub input_mode: InputMode,
    /// Chat lines received, oldest first.
    pub messages: Vec<String>,
    pub active_tab: ActiveTab,
    /// Log records, oldest first.
    pub logs: Vec<LogRecord>,
    pub is_user_registered: bool,
}

/// The client's state apart from the frame counter.
pub struct ModelView {
    pub input_mode: InputMode,
    pub active_tab: ActiveTab,
    pub is_user_registered: bool,
    pub input: Seq<char>,
    pub cursor: nat,
    pub messages: Seq<String>,
    pub logs: Seq<LogRecord>,
}

impl View for Model {
    type V = ModelView;

    open spec fn view(&self) -> ModelView {
        ModelView {
            input_mode: self.input_mode,
            active_tab: self.active_tab,
            is_user_registered: self.is_user_registered,
            input: self.input.value@,
            cursor: self.input.cursor as nat,
            messages: self.messages@,
            logs: self.logs@,
        }
    }
}

impl Model {
    /// The input line's cursor stands within it.
    pub open spec fn wf(&self) -> bool {
        self.input.wf()
    }

    /// The state at start-up: not registered, typing a user name, on the chat
    /// tab, with nothing received.
    pub fn new() -> (r: Self)
        ensures
            r.wf(),
            r@ == (ModelView {
                input_mode: InputMode::Editing,
                active_tab: ActiveTab::Chat,
                is_user_registered: false,
                input: Seq::empty(),
                cursor: 0,
                messages: Seq::empty(),
                logs: Seq::empty(),
            }),
            r.fps_counter.frame_count == 0,
            r.fps_counter.fps == 0,
    {
        let r = Model {
            fps_counter: FpsCounter::new(),
            input: InputBuffer::new(),
            input_mode: InputMode::Editing,
            messages: Vec::new(),
            active_tab: ActiveTab::Chat,
            logs: Vec::new(),
            is_user_registered: false,
        };
        assert(r.messages@ =~= Seq::<String>::empty());
        assert(r.logs@ =~= Seq::<LogRecord>::empty());
        r
    }
}

} // verus!
