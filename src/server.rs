//! The server's rules for one connection: the registration handshake, the
//! relay of its lines to the others, and the shared directory of user names.
use std::collections::HashMap;
use vstd::prelude::*;
use vstd::string::{StrSliceExecFns, StringExecFns};

use crate::text::{blank, is_blank, starts_with, trim, trimmed};

verus! {

broadcast use vstd::std_specs::hash::group_hash_axioms;

/// The text a registration line must begin with.
pub open spec fn name_prefix() -> Seq<char> {
    "username:"@
}

/// The user name that a first line registers, if it is a registration line:
/// what follows the prefix, without whitespace at either end.
pub open spec fn registration_name(line: Seq<char>) -> Option<Seq<char>> {
    let p = name_prefix();
    if p.len() <= line.len() && line.take(p.len() as int) == p {
        Some(trimmed(line.skip(p.len() as int)))
    } else {
        None
    }
}

/// The line that greets a user who has registered.
pub open spec fn welcome_text(name: Seq<char>) -> Seq<char> {
    "Welcome to the chat, "@ + name + "!\n"@
}

/// A line as it is relayed to the others: the sender's name, a colon and a
/// space, then the line as it was read.
pub open spec fn relay_text(name: Seq<char>, line: Seq<char>) -> Seq<char> {
    name + ": "@ + line
}

/// The user name registered by `line`, or `None` where it lacks the prefix.
pub fn parse_registration(line: &str) -> (r: Option<String>)
    ensures
        match r {
            Some(n) => registration_name(line@) == Some(n@),
            None => registration_name(line@) is None,
        },
{
    let prefix = "username:";
    if starts_with(line, prefix) {
        let n = line.unicode_len();
        let m = prefix.unicode_len();
        let rest = line.substring_char(m, n);
        assert(rest@ =~= line@.skip(m as int));
        Some(trim(rest))
    } else {
        None
    }
}

/// The greeting for `name`.
pub fn welcome(name: &str) -> (r: String)
    ensures
        r@ == welcome_text(name@),
{
    let mut r = String::from_str("Welcome to the chat, ");
    r.append(name);
    r.append("!\n");
    r
}

/// `line` as relayed from `name`.
pub fn relay(name: &str, line: &str) -> (r: String)
    ensures
        r@ == relay_text(name@, line@),
{
    let mut r = String::from_str(name);
    r.append(": ");
    r.append(line);
    r
}

/// Registered user names, by connection.
pub struct Directory {
    names: HashMap<u64, String>,
}

impl View for Directory {
    type V = Map<u64, Seq<char>>;

    closed spec fn view(&self) -> Map<u64, Seq<char>> {
        self.names@.map_values(|s: String| s@)
    }
}

impl Directory {
    /// An empty directory.
    pub fn new() -> (r: Self)
        ensures
            r@ == Map::<u64, Seq<char>>::empty(),
    {
        let r = Directory { names: HashMap::new() };
        assert(r@ =~= Map::<u64, Seq<char>>::empty());
        r
    }

    /// Records `name` for connection `id`.
    pub fn register(&mut self, id: u64, name: String)
        ensures
            final(self)@ == old(self)@.insert(id, name@),
    {
        self.names.insert(id, name);
        assert(final(self)@ =~= old(self)@.insert(id, name@));
    }

    /// The name recorded for connection `id`.
    pub fn name_of(&self, id: u64) -> (r: Option<String>)
        ensures
            match r {
                Some(n) => self@.contains_key(id) && self@[id] == n@,
                None => !self@.contains_key(id),
            },
    {
        match self.names.get(&id) {
            Some(n) => Some(n.clone()),
            None => None,
        }
    }

    /// Forgets connection `id`.
    pub fn unregister(&mut self, id: u64)
        ensures
            final(self)@ == old(self)@.remove(id),
    {
        self.names.remove(&id);
        assert(final(self)@ =~= old(self)@.remove(id));
    }
}

/// What a connection's task observed.
#[derive(Clone, Debug)]
pub enum ConnEvent {
    /// A line read from the socket, with its newline; empty at end of stream.
    Line(String),
    /// Reading from the socket failed.
    ReadFailed,
    /// A line published on the broadcast channel by connection `origin`.
    Broadcast(String, u64),
    /// The broadcast receiver fell behind and this many lines were skipped.
    Lagged(u64),
    /// The broadcast channel has no sender left.
    ChannelClosed,
    /// Writing to the socket failed.
    WriteFailed,
}

/// Why a connection ended.
#[derive(PartialEq, Eq, Structural, Clone, Copy, Debug)]
pub enum CloseReason {
    /// The client closed its side.
    EndOfStream,
    /// The first line was not a registration line.
    Protocol,
    /// Reading from or writing to the socket failed.
    Io,
    /// The broadcast channel closed.
    ChannelClosed,
}

/// What a connection's task does next.
#[derive(Clone, Debug)]
pub enum ConnAction {
    /// Write this text to the connection's own socket.
    Write(String),
    /// Publish this text on the broadcast channel, from connection `origin`.
    Publish(String, u64),
    /// End the connection.
    Close(CloseReason),
}

/// An action, with its text as characters.
pub enum ActionView {
    Write(Seq<char>),
    Publish(Seq<char>, u64),
    Close(CloseReason),
}

impl View for ConnAction {
    type V = ActionView;

    open spec fn view(&self) -> ActionView {
        match self {
            ConnAction::Write(t) => ActionView::Write(t@),
            ConnAction::Publish(t, o) => ActionView::Publish(t@, *o),
            ConnAction::Close(why) => ActionView::Close(*why),
        }
    }
}

/// The action an optional action stands for.
pub open spec fn action_view(a: Option<ConnAction>) -> Option<ActionView> {
    match a {
        Some(a) => Some(a@),
        None => None,
    }
}

/// One accepted connection: its identity, the name it registered, if any,
/// and whether it is still open.
pub struct Connection {
    pub id: u64,
    pub username: Option<String>,
    pub open: bool,
}

/// A connection, with its name as characters.
pub struct ConnView {
    pub id: u64,
    pub username: Option<Seq<char>>,
    pub open: bool,
}

impl View for Connection {
    type V = ConnView;

    open spec fn view(&self) -> ConnView {
        ConnView {
            id: self.id,
            username: match self.username {
                Some(n) => Some(n@),
                None => None,
            },
            open: self.open,
        }
    }
}

/// The connection ends: it closes and leaves the directory.
pub open spec fn closing(c: ConnView, d: Map<u64, Seq<char>>, why: CloseReason) -> (
    ConnView,
    Map<u64, Seq<char>>,
    Option<ActionView>,
) {
    (ConnView { open: false, ..c }, d.remove(c.id), Some(ActionView::Close(why)))
}

/// What an event does to a connection and to the directory, and the action
/// it gives.
pub open spec fn conn_next(c: ConnView, d: Map<u64, Seq<char>>, e: ConnEvent) -> (
    ConnView,
    Map<u64, Seq<char>>,
    Option<ActionView>,
) {
    if !c.open {
        (c, d, None)
    } else {
        match e {
            ConnEvent::Line(l) => if l@.len() == 0 {
                closing(c, d, CloseReason::EndOfStream)
            } else if c.username is None {
                match registration_name(l@) {
                    Some(n) => (
                        ConnView { username: Some(n), ..c },
                        d.insert(c.id, n),
                        Some(ActionView::Write(welcome_text(n))),
                    ),
                    None => closing(c, d, CloseReason::Protocol),
                }
            } else if is_blank(l@) || !d.contains_key(c.id) {
                (c, d, None)
            } else {
                (c, d, Some(ActionView::Publish(relay_text(d[c.id], l@), c.id)))
            },
            ConnEvent::ReadFailed => closing(c, d, CloseReason::Io),
            ConnEvent::WriteFailed => closing(c, d, CloseReason::Io),
            ConnEvent::Broadcast(t, origin) => if c.username is Some && origin != c.id {
                (c, d, Some(ActionView::Write(t@)))
            } else {
                (c, d, None)
            },
            ConnEvent::Lagged(_) => (c, d, None),
            ConnEvent::ChannelClosed => closing(c, d, CloseReason::ChannelClosed),
        }
    }
}


/// Before its registration line is accepted a connection neither publishes
/// nor relays anything: the only text it writes is the welcome, and only for
/// a registration line. A first line without the prefix closes it with a
/// protocol error and takes nothing from the directory but its own entry.
pub proof fn lemma_registration_gate(c: ConnView, d: Map<u64, Seq<char>>, e: ConnEvent)
    requires
        c.username is None,
    ensures
        ({
            let (c2, d2, a) = conn_next(c, d, e);
            &&& !(a matches Some(ActionView::Publish(_, _)))
            &&& a matches Some(ActionView::Write(t)) ==> (e matches ConnEvent::Line(l) && (
            registration_name(l@) matches Some(n) && t == welcome_text(n)))
            &&& forall|id: u64| id != c.id ==> d2.contains_key(id) == d.contains_key(id)
                && (d.contains_key(id) ==> d2[id] == d[id])
        }),
        (e matches ConnEvent::Line(l) && c.open && l@.len() > 0 && registration_name(l@) is None)
            ==> conn_next(c, d, e) == closing(c, d, CloseReason::Protocol),
{
}

/// A non-blank line from a registered connection A is published as
/// `"<A's name>: <line>"`, and every other registered connection B writes
/// that text to its socket as it is.
pub proof fn lemma_fan_out(
    a: ConnView,
    b: ConnView,
    d: Map<u64, Seq<char>>,
    line: String,
)
    requires
        a.open,
        a.username is Some,
        d.contains_key(a.id),
        d[a.id] == a.username->0,
        line@.len() > 0,
        !is_blank(line@),
        b.open,
        b.username is Some,
        b.id != a.id,
    ensures
        conn_next(a, d, ConnEvent::Line(line)).2 == Some(
            ActionView::Publish(relay_text(a.username->0, line@), a.id),
        ),
        forall|t: String|
            t@ == relay_text(a.username->0, line@) ==> (#[trigger] conn_next(
                b,
                d,
                ConnEvent::Broadcast(t, a.id),
            )).2 == Some(ActionView::Write(relay_text(a.username->0, line@))),
{
}

/// The directory lists a connection, under the name it registered, exactly
/// while it is open and registered.
pub open spec fn listed(c: ConnView, d: Map<u64, Seq<char>>) -> bool {
    &&& d.contains_key(c.id) == (c.open && c.username is Some)
    &&& d.contains_key(c.id) ==> c.username == Some(d[c.id])
}

/// Every event keeps a connection's directory entry in step with it: added
/// when the registration line is accepted, removed when the connection ends.
pub proof fn lemma_directory_tracks_connection(c: ConnView, d: Map<u64, Seq<char>>, e: ConnEvent)
    requires
        listed(c, d),
    ensures
        ({
            let (c2, d2, _) = conn_next(c, d, e);
            listed(c2, d2)
        }),
{
}

/// A connection never receives its own lines back.
pub proof fn lemma_no_self_echo(c: ConnView, d: Map<u64, Seq<char>>, t: String)
    ensures
        conn_next(c, d, ConnEvent::Broadcast(t, c.id)) == (c, d, None::<ActionView>),
{
}

/// A line that is empty or all whitespace is never published.
pub proof fn lemma_blank_not_relayed(c: ConnView, d: Map<u64, Seq<char>>, line: String)
    requires
        is_blank(line@),
    ensures
        !(conn_next(c, d, ConnEvent::Line(line)).2 matches Some(ActionView::Publish(_, _))),
{
}

/// A receiver that fell behind goes on as it was: the lag closes nothing and
/// changes nothing, and a registered connection still writes each later line
/// from another connection.
pub proof fn lemma_lag_resumes(
    c: ConnView,
    d: Map<u64, Seq<char>>,
    skipped: u64,
    t: String,
    origin: u64,
)
    requires
        c.open,
        c.username is Some,
        origin != c.id,
    ensures
        conn_next(c, d, ConnEvent::Lagged(skipped)) == (c, d, None::<ActionView>),
        conn_next(c, d, ConnEvent::Broadcast(t, origin)) == (c, d, Some(ActionView::Write(t@))),
{
}

impl Connection {
    /// A connection just accepted: open, with no name yet.
    pub fn new(id: u64) -> (r: Self)
        ensures
            r@ == (ConnView { id, username: None, open: true }),
    {
        Connection { id, username: None, open: true }
    }

    fn close(&mut self, dir: &mut Directory, why: CloseReason) -> (r: Option<ConnAction>)
        ensures
            (final(self)@, final(dir)@, action_view(r)) == closing(old(self)@, old(dir)@, why),
    {
        self.open = false;
        dir.unregister(self.id);
        Some(ConnAction::Close(why))
    }

    /// Advances the connection by one event, updating the directory, and
    /// returns the action to perform.
    pub fn step(&mut self, dir: &mut Directory, event: ConnEvent) -> (r: Option<ConnAction>)
        ensures
            (final(self)@, final(dir)@, action_view(r)) == conn_next(old(self)@, old(dir)@, event),
    {
        if !self.open {
            return None;
        }
        match event {
            ConnEvent::Line(line) => {
                if line.as_str().unicode_len() == 0 {
                    return self.close(dir, CloseReason::EndOfStream);
                }
                if self.username.is_none() {
                    match parse_registration(line.as_str()) {
                        Some(name) => {
                            dir.register(self.id, name.clone());
                            let w = welcome(name.as_str());
                            self.username = Some(name);
                            Some(ConnAction::Write(w))
                        },
                        None => self.close(dir, CloseReason::Protocol),
                    }
                } else if blank(line.as_str()) {
                    None
                } else {
                    match dir.name_of(self.id) {
                        Some(name) => Some(
                            ConnAction::Publish(relay(name.as_str(), line.as_str()), self.id),
                        ),
                        None => None,
                    }
                }
            },
            ConnEvent::ReadFailed => self.close(dir, CloseReason::Io),
            ConnEvent::WriteFailed => self.close(dir, CloseReason::Io),
            ConnEvent::Broadcast(text, origin) => {
                if self.username.is_some() && origin != self.id {
                    Some(ConnAction::Write(text))
                } else {
                    None
                }
            },
            ConnEvent::Lagged(_) => None,
            ConnEvent::ChannelClosed => self.close(dir, CloseReason::ChannelClosed),
        }
    }
}

} // verus!
