//! The client's state dispatcher: one event in, the next state and at most
//! one command out.
use vstd::prelude::*;
use vstd::string::StringExecFns;

use crate::fps::frame_counted;
use crate::model::{
    edited, is_alnum, other_tab, ActiveTab, EditRequest, Command, CommandView, InputMode, KeyCode, KeyPress, Message,
    Model, ModelView, command_view,
};

verus! {

/// The line that Enter sends from the input: the text itself once
/// registered, the registration line before.
pub open spec fn sent_text(m: ModelView) -> Seq<char> {
    if m.is_user_registered {
        m.input
    } else {
        "username:"@ + m.input
    }
}

/// What a key press does.
pub open spec fn after_key(m: ModelView, k: KeyPress) -> (ModelView, Option<CommandView>) {
    match m.input_mode {
        InputMode::Normal => match k.code {
            KeyCode::Char(c) => if c == 'q' {
                (m, Some(CommandView::Quit))
            } else {
                (m, None)
            },
            KeyCode::Enter => if m.active_tab == ActiveTab::Chat || !m.is_user_registered {
                (ModelView { input_mode: InputMode::Editing, ..m }, None)
            } else {
                (m, None)
            },
            KeyCode::Tab => (ModelView { active_tab: other_tab(m.active_tab), ..m }, None),
            _ => (m, None),
        },
        InputMode::Editing => match k.code {
            KeyCode::Enter => (
                ModelView { is_user_registered: true, input: Seq::empty(), cursor: 0, ..m },
                Some(CommandView::Send(sent_text(m))),
            ),
            KeyCode::Esc => (ModelView { input_mode: InputMode::Normal, ..m }, None),
            KeyCode::Tab => (ModelView { active_tab: other_tab(m.active_tab), ..m }, None),
            _ => match k.edit {
                Some(req) => {
                    let (v, c) = edited(m.input, m.cursor, req, |c: char| is_alnum(c));
                    (ModelView { input: v, cursor: c, ..m }, None)
                },
                None => (m, None),
            },
        },
    }
}

/// Whether the event inserts a character into the input line: the only
/// event that lengthens it.
pub open spec fn inserts_char(m: ModelView, msg: Message) -> bool {
    &&& msg matches Message::Key(k)
    &&& m.input_mode == InputMode::Editing
    &&& k.code != KeyCode::Enter
    &&& k.code != KeyCode::Esc
    &&& k.code != KeyCode::Tab
    &&& k.edit matches Some(EditRequest::InsertChar(_))
}

/// What an event does to the state (the frame counter aside), and the command
/// it gives.
pub open spec fn dispatch(m: ModelView, msg: Message) -> (ModelView, Option<CommandView>) {
    match msg {
        Message::Key(k) => after_key(m, k),
        Message::Quit => (m, Some(CommandView::Quit)),
        Message::Render => (m, Some(CommandView::Draw)),
        Message::Tick => (m, None),
        Message::Error => (m, None),
        Message::ReceivedNetworkMessage(t) => (ModelView { messages: m.messages.push(t), ..m }, None),
        Message::SendNetworkMessage(t) => (m, Some(CommandView::Send(t@))),
        Message::Log(l) => (ModelView { logs: m.logs.push(l), ..m }, None),
    }
}

/// The input modes: Enter in normal mode on the chat tab starts editing; Esc
/// while editing returns to normal mode and leaves the line as it was; Enter
/// while editing, once registered, sends exactly the line and empties it.
pub proof fn lemma_input_modes(m: ModelView, k: KeyPress)
    ensures
        m.input_mode == InputMode::Normal && k.code == KeyCode::Enter && m.active_tab
            == ActiveTab::Chat ==> dispatch(m, Message::Key(k)) == (
            ModelView { input_mode: InputMode::Editing, ..m },
            None::<CommandView>,
        ),
        m.input_mode == InputMode::Editing && k.code == KeyCode::Esc ==> dispatch(
            m,
            Message::Key(k),
        ) == (ModelView { input_mode: InputMode::Normal, ..m }, None::<CommandView>),
        m.input_mode == InputMode::Editing && k.code == KeyCode::Enter && m.is_user_registered
            ==> dispatch(m, Message::Key(k)) == (
            ModelView { input: Seq::empty(), cursor: 0, ..m },
            Some(CommandView::Send(m.input)),
        ),
{
}

/// Advances the state by one event and returns the command it gives.
pub fn update(model: &mut Model, message: Message) -> (cmd: Option<Command>)
    requires
        old(model).wf(),
        message is Render ==> old(model).fps_counter.frame_count < u64::MAX,
        inserts_char(old(model)@, message) ==> old(model).input.value@.len() < usize::MAX,
    ensures
        final(model).wf(),
        (final(model)@, command_view(cmd)) == dispatch(old(model)@, message),
        message is Render ==> frame_counted(old(model).fps_counter, final(model).fps_counter),
        !(message is Render) ==> final(model).fps_counter == old(model).fps_counter,
{
    match message {
        Message::Key(key) => update_key(model, key),
        Message::Quit => Some(Command::Quit),
        Message::Render => {
            model.fps_counter.tick();
            Some(Command::Draw)
        },
        Message::Tick => None,
        Message::Error => None,
        Message::ReceivedNetworkMessage(text) => {
            model.messages.push(text);
            None
        },
        Message::SendNetworkMessage(text) => Some(Command::Send(text)),
        Message::Log(line) => {
            model.logs.push(line);
            None
        },
    }
}

fn toggle_tab(t: ActiveTab) -> (r: ActiveTab)
    ensures
        r == other_tab(t),
{
    match t {
        ActiveTab::Chat => ActiveTab::Logs,
        ActiveTab::Logs => ActiveTab::Chat,
    }
}

fn update_key(model: &mut Model, key: KeyPress) -> (cmd: Option<Command>)
    requires
        old(model).wf(),
        inserts_char(old(model)@, Message::Key(key)) ==> old(model).input.value@.len()
            < usize::MAX,
    ensures
        final(model).wf(),
        (final(model)@, command_view(cmd)) == after_key(old(model)@, key),
        final(model).fps_counter == old(model).fps_counter,
{
    match model.input_mode {
        InputMode::Normal => match key.code {
            KeyCode::Char(c) => if c == 'q' {
                Some(Command::Quit)
            } else {
                None
            },
            KeyCode::Enter => {
                if model.active_tab == ActiveTab::Chat || !model.is_user_registered {
                    model.input_mode = InputMode::Editing;
                }
                None
            },
            KeyCode::Tab => {
                model.active_tab = toggle_tab(model.active_tab);
                None
            },
            _ => None,
        },
        InputMode::Editing => match key.code {
            KeyCode::Enter => {
                let text = if model.is_user_registered {
                    model.input.value.clone()
                } else {
                    let mut s = String::from_str("username:");
                    s.append(model.input.value.as_str());
                    s
                };
                model.is_user_registered = true;
                model.input.reset();
                Some(Command::Send(text))
            },
            KeyCode::Esc => {
                model.input_mode = InputMode::Normal;
                None
            },
            KeyCode::Tab => {
                model.active_tab = toggle_tab(model.active_tab);
                None
            },
            _ => {
                match key.edit {
                    Some(req) => model.input.apply(req),
                    None => {},
                }
                None
            },
        },
    }
}

} // verus!
