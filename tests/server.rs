use rust_chat::server::{
    parse_registration, relay, welcome, CloseReason, ConnAction, ConnEvent, Connection, Directory,
};

fn line(s: &str) -> ConnEvent {
    ConnEvent::Line(s.to_string())
}

fn written(a: Option<ConnAction>) -> String {
    match a {
        Some(ConnAction::Write(t)) => t,
        other => panic!("expected a write, got {:?}", other),
    }
}

fn published(a: Option<ConnAction>) -> (String, u64) {
    match a {
        Some(ConnAction::Publish(t, o)) => (t, o),
        other => panic!("expected a publish, got {:?}", other),
    }
}

fn registered(dir: &mut Directory, id: u64, name: &str) -> Connection {
    let mut c = Connection::new(id);
    let w = written(c.step(dir, line(&format!("username:{name}\n"))));
    assert_eq!(w, format!("Welcome to the chat, {name}!\n"));
    c
}

#[test]
fn two_clients_chat_end_to_end() {
    let mut dir = Directory::new();
    let mut a = Connection::new(1);
    assert_eq!(written(a.step(&mut dir, line("username:alice\n"))), "Welcome to the chat, alice!\n");
    let mut b = Connection::new(2);
    assert_eq!(written(b.step(&mut dir, line("username:bob\n"))), "Welcome to the chat, bob!\n");

    let (text, origin) = published(a.step(&mut dir, line("hi\n")));
    assert_eq!(text, "alice: hi\n");
    assert_eq!(origin, 1);

    // B writes it to its socket as it is; A gets nothing back.
    assert_eq!(written(b.step(&mut dir, ConnEvent::Broadcast(text.clone(), origin))), "alice: hi\n");
    assert!(a.step(&mut dir, ConnEvent::Broadcast(text, origin)).is_none());
}

#[test]
fn fan_out_reaches_every_other_client() {
    let mut dir = Directory::new();
    let mut a = registered(&mut dir, 10, "ann");
    let mut others: Vec<Connection> =
        (11..15).map(|id| registered(&mut dir, id, &format!("u{id}"))).collect();
    let (text, origin) = published(a.step(&mut dir, line("  spaced out  \n")));
    assert_eq!(text, "ann:   spaced out  \n");
    for o in others.iter_mut() {
        assert_eq!(written(o.step(&mut dir, ConnEvent::Broadcast(text.clone(), origin))), text);
    }
}

#[test]
fn sender_does_not_receive_its_own_line() {
    let mut dir = Directory::new();
    let mut a = registered(&mut dir, 7, "solo");
    let (text, origin) = published(a.step(&mut dir, line("echo?\n")));
    assert!(a.step(&mut dir, ConnEvent::Broadcast(text, origin)).is_none());
    assert!(a.open);
}

#[test]
fn nothing_relayed_before_registration() {
    let mut dir = Directory::new();
    let mut c = Connection::new(3);
    assert!(c.step(&mut dir, ConnEvent::Broadcast("x: hello\n".to_string(), 9)).is_none());
    assert!(c.step(&mut dir, ConnEvent::Lagged(4)).is_none());
    assert!(c.username.is_none());
    assert!(dir.name_of(3).is_none());
}

#[test]
fn malformed_first_line_is_a_protocol_error() {
    let mut dir = Directory::new();
    let mut other = registered(&mut dir, 1, "keeper");
    let mut c = Connection::new(2);
    let a = c.step(&mut dir, line("hello there\n"));
    assert!(matches!(a, Some(ConnAction::Close(CloseReason::Protocol))));
    assert!(!c.open);
    assert!(dir.name_of(2).is_none());
    // The other connection is untouched.
    assert_eq!(dir.name_of(1), Some("keeper".to_string()));
    assert!(other.open);
    let (text, _) = published(other.step(&mut dir, line("still here\n")));
    assert_eq!(text, "keeper: still here\n");
    // A closed connection ignores what follows.
    assert!(c.step(&mut dir, line("username:late\n")).is_none());
}

#[test]
fn end_of_stream_before_registration_abandons() {
    let mut dir = Directory::new();
    let mut c = Connection::new(5);
    assert!(matches!(c.step(&mut dir, line("")), Some(ConnAction::Close(CloseReason::EndOfStream))));
    assert!(!c.open);
}

#[test]
fn blank_lines_are_not_published() {
    let mut dir = Directory::new();
    let mut a = registered(&mut dir, 1, "a");
    assert!(a.step(&mut dir, line("\n")).is_none());
    assert!(a.step(&mut dir, line("   \t \r\n")).is_none());
    assert!(a.open);
}

#[test]
fn lag_is_survived() {
    let mut dir = Directory::new();
    let mut b = registered(&mut dir, 2, "b");
    assert!(b.step(&mut dir, ConnEvent::Lagged(20)).is_none());
    assert!(b.open);
    assert_eq!(written(b.step(&mut dir, ConnEvent::Broadcast("a: next\n".to_string(), 1))), "a: next\n");
}

#[test]
fn disconnect_removes_directory_entry() {
    let mut dir = Directory::new();
    let mut a = registered(&mut dir, 1, "a");
    let mut b = registered(&mut dir, 2, "b");
    let mut c = registered(&mut dir, 3, "c");
    assert!(matches!(a.step(&mut dir, line("")), Some(ConnAction::Close(CloseReason::EndOfStream))));
    assert!(matches!(b.step(&mut dir, ConnEvent::ReadFailed), Some(ConnAction::Close(CloseReason::Io))));
    assert!(matches!(c.step(&mut dir, ConnEvent::WriteFailed), Some(ConnAction::Close(CloseReason::Io))));
    assert!(dir.name_of(1).is_none());
    assert!(dir.name_of(2).is_none());
    assert!(dir.name_of(3).is_none());
    let mut d = registered(&mut dir, 4, "d");
    assert!(matches!(
        d.step(&mut dir, ConnEvent::ChannelClosed),
        Some(ConnAction::Close(CloseReason::ChannelClosed))
    ));
    assert!(dir.name_of(4).is_none());
}

#[test]
fn missing_directory_entry_publishes_nothing() {
    let mut dir = Directory::new();
    let mut a = registered(&mut dir, 1, "a");
    dir.unregister(1);
    assert!(a.step(&mut dir, line("lost\n")).is_none());
}

#[test]
fn registration_line_parsing() {
    assert_eq!(parse_registration("username:alice\n"), Some("alice".to_string()));
    assert_eq!(parse_registration("username:  bob smith \r\n"), Some("bob smith".to_string()));
    assert_eq!(parse_registration("username:\n"), Some(String::new()));
    assert_eq!(parse_registration("x username:bob\n"), None);
    assert_eq!(parse_registration("user:bob\n"), None);
    assert_eq!(parse_registration(""), None);
}

#[test]
fn greeting_and_relay_formats() {
    assert_eq!(welcome("zoë"), "Welcome to the chat, zoë!\n");
    assert_eq!(relay("alice", "hi\n"), "alice: hi\n");
    assert_eq!(relay("", ""), ": ");
}

#[test]
fn directory_operations() {
    let mut dir = Directory::new();
    assert!(dir.name_of(1).is_none());
    dir.register(1, "one".to_string());
    dir.register(2, "two".to_string());
    dir.register(1, "uno".to_string());
    assert_eq!(dir.name_of(1), Some("uno".to_string()));
    assert_eq!(dir.name_of(2), Some("two".to_string()));
    dir.unregister(2);
    assert!(dir.name_of(2).is_none());
    assert_eq!(dir.name_of(1), Some("uno".to_string()));
}
