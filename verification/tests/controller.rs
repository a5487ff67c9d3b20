use std::sync::mpsc;

use lightc::client::{edit_line, Client, UiAction};
use lightc::lcommand::{Lcmd, Lcommand};

fn fresh_client(name: &str) -> Client {
    let (_keys_tx, keys_rx) = mpsc::channel::<char>();
    Client::new(name.to_string(), keys_rx)
}

#[test]
fn new_client_is_disconnected() {
    let c = fresh_client("alice");
    assert_eq!(c.username, "alice");
    assert!(c.connected.is_none());
    assert!(c.tx.is_none());
    assert!(c.rx.is_none());
    assert!(c.messages.is_empty());
}

#[test]
fn parse_plain_text_is_say() {
    let mut c = fresh_client("alice");
    let cmd = c.parse_cmd("hello there world".to_string());
    assert_eq!(cmd.cmd_type, Lcmd::Say);
    assert_eq!(cmd.user, "alice");
    assert_eq!(cmd.content, "hello there world");
    assert_eq!(c.username, "alice");
    assert!(c.messages.is_empty());
}

#[test]
fn parse_connect_takes_address() {
    let mut c = fresh_client("alice");
    let cmd = c.parse_cmd("/connect 127.0.0.1:9001".to_string());
    assert_eq!(cmd.cmd_type, Lcmd::Conn);
    assert_eq!(cmd.user, "alice");
    assert_eq!(cmd.content, "127.0.0.1:9001");
}

#[test]
fn parse_disconnect_quit_help() {
    let mut c = fresh_client("alice");
    assert_eq!(c.parse_cmd("/disconnect".to_string()).cmd_type, Lcmd::Dc);
    assert_eq!(c.parse_cmd("/quit".to_string()).cmd_type, Lcmd::Quit);
    assert_eq!(c.parse_cmd("/help".to_string()).cmd_type, Lcmd::Help);
}

#[test]
fn parse_nick_renames_and_keeps_old_name() {
    let mut c = fresh_client("alice");
    let cmd = c.parse_cmd("/nick bob".to_string());
    assert_eq!(cmd.cmd_type, Lcmd::Nick);
    assert_eq!(cmd.user, "alice");
    assert_eq!(cmd.content, "bob");
    assert_eq!(c.username, "bob");
    assert_eq!(
        c.messages.last().unwrap(),
        "[CLIENT]: you changed your nickname to bob"
    );
}

#[test]
fn parse_unknown_slash_verb_is_say() {
    let mut c = fresh_client("alice");
    let cmd = c.parse_cmd("/frobnicate now".to_string());
    assert_eq!(cmd.cmd_type, Lcmd::Say);
    assert_eq!(cmd.content, "/frobnicate now");
}

#[test]
fn send_msg_without_session_fails() {
    let mut c = fresh_client("alice");
    let msg = Lcommand { cmd_type: Lcmd::Say, user: String::new(), content: "hi".to_string() };
    assert!(!c.send_msg(msg));
}

#[test]
fn send_msg_stamps_current_username() {
    let mut c = fresh_client("alice");
    let (tx, out_rx) = mpsc::channel::<Lcommand>();
    c.tx = Some(tx);
    let msg =
        Lcommand { cmd_type: Lcmd::Say, user: "whoever".to_string(), content: "hi".to_string() };
    assert!(c.send_msg(msg));
    let queued = out_rx.try_recv().unwrap();
    assert_eq!(queued.cmd_type, Lcmd::Say);
    assert_eq!(queued.user, "alice");
    assert_eq!(queued.content, "hi");
}

#[test]
fn send_msg_keeps_previous_name_on_rename() {
    let mut c = fresh_client("bob");
    let (tx, out_rx) = mpsc::channel::<Lcommand>();
    c.tx = Some(tx);
    let msg =
        Lcommand { cmd_type: Lcmd::Nick, user: "alice".to_string(), content: "bob".to_string() };
    assert!(c.send_msg(msg));
    let queued = out_rx.try_recv().unwrap();
    assert_eq!(queued.user, "alice");
}

#[test]
fn send_msg_disconnect_drops_connected_state() {
    let mut c = fresh_client("alice");
    let (tx, _out_rx) = mpsc::channel::<Lcommand>();
    c.tx = Some(tx);
    c.connected = Some("127.0.0.1:9001".to_string());
    let msg = Lcommand { cmd_type: Lcmd::Dc, user: String::new(), content: String::new() };
    assert!(c.send_msg(msg));
    assert!(c.connected.is_none());
}

#[test]
fn send_msg_fails_when_receiver_is_gone() {
    let mut c = fresh_client("alice");
    let (tx, out_rx) = mpsc::channel::<Lcommand>();
    drop(out_rx);
    c.tx = Some(tx);
    let msg = Lcommand { cmd_type: Lcmd::Say, user: String::new(), content: "hi".to_string() };
    assert!(!c.send_msg(msg));
}

#[test]
fn handshake_announces_current_user() {
    let c = fresh_client("alice");
    let hs = c.handshake();
    assert_eq!(hs.cmd_type, Lcmd::Conn);
    assert_eq!(hs.user, "alice");
    assert_eq!(hs.content, "");
}

#[test]
fn session_established_sets_state_and_sends_handshake() {
    let mut c = fresh_client("alice");
    let (tx, out_rx) = mpsc::channel::<Lcommand>();
    let (_in_tx, in_rx) = mpsc::channel::<Lcommand>();
    let sent = c.session_established("127.0.0.1:9001".to_string(), tx, in_rx);
    assert!(sent);
    assert_eq!(c.connected.as_deref(), Some("127.0.0.1:9001"));
    assert!(c.tx.is_some());
    assert!(c.rx.is_some());
    assert_eq!(c.messages.last().unwrap(), "[CLIENT]: you joined 127.0.0.1:9001");
    let hs = out_rx.try_recv().unwrap();
    assert_eq!(hs.cmd_type, Lcmd::Conn);
    assert_eq!(hs.user, "alice");
}

#[test]
fn session_failed_only_notes_it() {
    let mut c = fresh_client("alice");
    c.session_failed(&"badhost:1".to_string());
    assert!(c.connected.is_none());
    assert_eq!(c.messages.last().unwrap(), "[CLIENT]: failed to join badhost:1");
}

#[test]
fn poll_inbound_renders_one_message() {
    let mut c = fresh_client("alice");
    let (in_tx, in_rx) = mpsc::channel::<Lcommand>();
    c.rx = Some(in_rx);
    in_tx
        .send(Lcommand {
            cmd_type: Lcmd::Say,
            user: "bob".to_string(),
            content: "hi".to_string(),
        })
        .unwrap();
    assert!(c.poll_inbound());
    assert_eq!(c.messages.last().unwrap(), "<bob>: hi");
    assert!(!c.poll_inbound());
    assert_eq!(c.messages.len(), 1);
}

#[test]
fn poll_inbound_without_session_does_nothing() {
    let mut c = fresh_client("alice");
    assert!(!c.poll_inbound());
    assert!(c.messages.is_empty());
}

#[test]
fn welcome_and_help_lines() {
    let mut c = fresh_client("alice");
    c.print_welcome();
    assert_eq!(
        c.messages,
        vec![
            "Hi! Welcome to LightC! :)".to_string(),
            "Use '/help' to see all available commands".to_string(),
        ]
    );
    c.print_help();
    assert_eq!(c.messages.len(), 7);
    assert_eq!(c.messages[2], "Commands: ");
    assert_eq!(c.messages[3], "\t/connect <addr> : connect to server at <addr>");
    assert_eq!(
        c.messages[6],
        "\t/quit : disconnect from the connected server and close the client"
    );
}

#[test]
fn edit_line_accumulates_and_submits() {
    let mut buf: Vec<char> = Vec::new();
    assert!(edit_line(&mut buf, 'h').is_none());
    assert!(edit_line(&mut buf, 'i').is_none());
    assert!(edit_line(&mut buf, 'x').is_none());
    assert!(edit_line(&mut buf, '\u{8}').is_none());
    let line = edit_line(&mut buf, '\n').unwrap();
    assert_eq!(line, "hi");
    assert!(buf.is_empty());
}

#[test]
fn edit_line_backspace_on_empty_buffer() {
    let mut buf: Vec<char> = Vec::new();
    assert!(edit_line(&mut buf, '\u{8}').is_none());
    assert!(buf.is_empty());
}

#[test]
fn handle_line_quit_asks_to_exit() {
    let mut c = fresh_client("alice");
    let act = c.handle_line("/quit".to_string());
    assert!(matches!(act, UiAction::Exit));
    assert!(c.messages.is_empty());
}

#[test]
fn handle_line_connect_asks_for_session() {
    let mut c = fresh_client("alice");
    let act = c.handle_line("/connect 127.0.0.1:9001".to_string());
    match act {
        UiAction::OpenSession(addr) => assert_eq!(addr, "127.0.0.1:9001"),
        other => panic!("unexpected action {:?}", other),
    }
}

#[test]
fn handle_line_say_without_session() {
    let mut c = fresh_client("alice");
    let act = c.handle_line("hello".to_string());
    assert!(matches!(act, UiAction::Stay));
    assert!(c.connected.is_none());
    assert_eq!(c.messages.last().unwrap(), "[CLIENT]: not connected to a server");
}

#[test]
fn handle_line_say_with_session_echoes() {
    let mut c = fresh_client("alice");
    let (tx, out_rx) = mpsc::channel::<Lcommand>();
    c.tx = Some(tx);
    c.connected = Some("127.0.0.1:9001".to_string());
    let act = c.handle_line("hello".to_string());
    assert!(matches!(act, UiAction::Stay));
    assert_eq!(c.messages.last().unwrap(), "<alice>: hello");
    let queued = out_rx.try_recv().unwrap();
    assert_eq!(queued.cmd_type, Lcmd::Say);
    assert_eq!(queued.content, "hello");
}

#[test]
fn handle_line_nick_is_local_only() {
    let mut c = fresh_client("alice");
    let (tx, out_rx) = mpsc::channel::<Lcommand>();
    c.tx = Some(tx);
    let act = c.handle_line("/nick bob".to_string());
    assert!(matches!(act, UiAction::Stay));
    assert_eq!(c.username, "bob");
    assert_eq!(c.messages.last().unwrap(), "[CLIENT]: you changed your nickname to bob");
    assert!(out_rx.try_recv().is_err());
}

#[test]
fn handle_line_help_prints_summary() {
    let mut c = fresh_client("alice");
    let act = c.handle_line("/help".to_string());
    assert!(matches!(act, UiAction::Stay));
    assert_eq!(c.messages.len(), 5);
    assert_eq!(c.messages[0], "Commands: ");
}
