//! The client controller: local state (username, session handles,
//! scrollback), the prompt-line editor, the local command grammar, and
//! the decisions of one input cycle. Socket and terminal plumbing stay
//! outside; they reach this state only through these functions.

use vstd::prelude::*;
use vstd::string::*;
use std::sync::mpsc::Receiver;
use std::sync::mpsc::Sender;
use crate::chan::send_cmd;
use crate::chan::try_recv_cmd;
use crate::lcommand::Lcmd;
use crate::lcommand::Lcommand;
use crate::lcommand::display_spec;
use crate::lcommand::find_ch;
use crate::lcommand::find_char;
use crate::lcommand::str_eq;

verus! {

/// The client's local state: its display name, the address of the server
/// it is connected to (if any), the two queue ends bridging it to the
/// session's socket threads, the scrollback of display lines, and the
/// stream of raw keystrokes.
pub struct Client {
    pub username: String,
    pub connected: Option<String>,
    pub tx: Option<Sender<Lcommand>>,
    pub rx: Option<Receiver<Lcommand>>,
    pub messages: Vec<String>,
    pub user_in: Receiver<char>,
}

/// What the controller asks its surroundings to do after handling one
/// submitted line: nothing, exit the process, or open a session to an
/// address.
#[derive(Debug)]
pub enum UiAction {
    Stay,
    Exit,
    OpenSession(String),
}

/// The first space-delimited token of an input line (the whole line when
/// it has no space).
pub open spec fn first_token(line: Seq<char>) -> Seq<char> {
    match find_ch(line, ' ', 0) {
        Some(i) => line.subrange(0, i),
        None => line,
    }
}

/// Everything after the first space of an input line (empty when it has
/// none): the argument part of a slash command.
pub open spec fn rest_of(line: Seq<char>) -> Seq<char> {
    match find_ch(line, ' ', 0) {
        Some(i) => line.subrange(i + 1, line.len() as int),
        None => Seq::empty(),
    }
}

/// The local verb an input line's first token selects. Anything that is
/// not a known slash command is chat text.
pub open spec fn verb_of(t: Seq<char>) -> Lcmd {
    if t == "/connect"@ {
        Lcmd::Conn
    } else if t == "/disconnect"@ {
        Lcmd::Dc
    } else if t == "/nick"@ {
        Lcmd::Nick
    } else if t == "/quit"@ {
        Lcmd::Quit
    } else if t == "/help"@ {
        Lcmd::Help
    } else {
        Lcmd::Say
    }
}

/// The content a parsed line carries: the whole line for chat text, the
/// part after the verb for a slash command.
pub open spec fn parse_content(line: Seq<char>) -> Seq<char> {
    if verb_of(first_token(line)) is Say {
        line
    } else {
        rest_of(line)
    }
}

/// The scrollback after the command summary was printed.
pub open spec fn help_appended(msgs: Seq<Seq<char>>) -> Seq<Seq<char>> {
    msgs.push("Commands: "@).push("\t/connect <addr> : connect to server at <addr>"@).push(
        "\t/disconnect : disconnect from connected server"@,
    ).push("\t/nick <nick> : change your username to <nick>"@).push(
        "\t/quit : disconnect from the connected server and close the client"@,
    )
}

/// What handling one submitted line does, by the verb its first token
/// selects; `pre` and `post` are the client before and after.
/// - quit: the session is handed its final command and the surroundings
///   are asked to exit; the scrollback and username stay.
/// - connect: the surroundings are asked to open a session to the
///   line's argument; nothing local changes yet.
/// - help: the command summary joins the scrollback.
/// - a rename: applied locally by the parser (new username, a notice in
///   the scrollback), and deliberately not sent to the session.
/// - chat text or a disconnect: handed to the session; on success the
///   local echo joins the scrollback (and a disconnect drops the
///   connected state), otherwise the client notes it is not connected
///   and drops its connected state. With no session the failure branch
///   is certain.
pub open spec fn line_handled(pre: Client, post: Client, line: Seq<char>, act: UiAction) -> bool {
    let v = verb_of(first_token(line));
    let c = parse_content(line);
    &&& post.rx == pre.rx
    &&& post.user_in == pre.user_in
    &&& (v is Quit ==> {
        &&& act is Exit
        &&& post.username == pre.username
        &&& post.messages == pre.messages
        &&& post.connected == pre.connected
        &&& post.tx == pre.tx
    })
    &&& (v is Conn ==> {
        &&& act matches UiAction::OpenSession(a) && a@ == c
        &&& post.username == pre.username
        &&& post.messages == pre.messages
        &&& post.connected == pre.connected
        &&& post.tx == pre.tx
    })
    &&& (v is Help ==> {
        &&& act is Stay
        &&& post.username == pre.username
        &&& post.connected == pre.connected
        &&& post.tx == pre.tx
        &&& post.messages.deep_view() == help_appended(pre.messages.deep_view())
    })
    &&& (v is Nick ==> {
        &&& act is Stay
        &&& post.username@ == c
        &&& post.connected == pre.connected
        &&& post.tx == pre.tx
        &&& post.messages.deep_view() == pre.messages.deep_view().push(
            "[CLIENT]: you changed your nickname to "@ + c,
        )
    })
    &&& ((v is Say || v is Dc) ==> {
        &&& act is Stay
        &&& post.username == pre.username
        &&& post.tx == pre.tx
        &&& (v is Dc ==> post.connected is None)
        &&& {
            ||| {
                &&& pre.tx is Some
                &&& post.messages.deep_view() == pre.messages.deep_view().push(
                    display_spec(v, pre.username@, c, true),
                )
                &&& (v is Say ==> post.connected == pre.connected)
            }
            ||| {
                &&& post.connected is None
                &&& post.messages.deep_view() == pre.messages.deep_view().push(
                    "[CLIENT]: not connected to a server"@,
                )
            }
        }
    })
    &&& ((v is Say || v is Dc) && pre.tx is None ==> {
        &&& post.connected is None
        &&& post.messages.deep_view() == pre.messages.deep_view().push(
            "[CLIENT]: not connected to a server"@,
        )
    })
}

impl Client {
    /// A fresh client: the given name, no session, empty scrollback, and
    /// the given keystroke source.
    pub fn new(username: String, user_in: Receiver<char>) -> (c: Client)
        ensures
            c.username == username,
            c.connected is None,
            c.tx is None,
            c.rx is None,
            c.messages@ =~= Seq::<String>::empty(),
            c.user_in == user_in,
    {
        Client { username, connected: None, tx: None, rx: None, messages: Vec::new(), user_in }
    }

    /// Parses one submitted input line into a command under the local
    /// grammar. A rename is applied to local state at once: the username
    /// becomes the new name, a notice joins the scrollback, and the
    /// returned command keeps the previous name so peers could be told
    /// who renamed. Every other verb leaves the state untouched and goes
    /// out under the current username.
    pub fn parse_cmd(&mut self, buf: String) -> (r: Lcommand)
        ensures
            r.cmd_type == verb_of(first_token(buf@)),
            r.content@ == parse_content(buf@),
            final(self).connected == old(self).connected,
            final(self).tx == old(self).tx,
            final(self).rx == old(self).rx,
            final(self).user_in == old(self).user_in,
            r.cmd_type is Nick ==> {
                &&& r.user@ == old(self).username@
                &&& final(self).username@ == parse_content(buf@)
                &&& final(self).messages.deep_view() == old(self).messages.deep_view().push(
                    "[CLIENT]: you changed your nickname to "@ + parse_content(buf@),
                )
            },
            !(r.cmd_type is Nick) ==> {
                &&& r.user@ == old(self).username@
                &&& final(self).username == old(self).username
                &&& final(self).messages == old(self).messages
            },
    {
        let s = buf.as_str();
        let n = s.unicode_len();
        let sp = find_char(s, ' ', 0);
        let t_end = match sp {
            Some(i) => i,
            None => n,
        };
        let t0 = s.substring_char(0, t_end);
        proof {
            assert(t0@ == first_token(buf@));
        }
        let cmd_type = if str_eq(t0, "/connect") {
            Lcmd::Conn
        } else if str_eq(t0, "/disconnect") {
            Lcmd::Dc
        } else if str_eq(t0, "/nick") {
            Lcmd::Nick
        } else if str_eq(t0, "/quit") {
            Lcmd::Quit
        } else if str_eq(t0, "/help") {
            Lcmd::Help
        } else {
            Lcmd::Say
        };
        let content: String = if cmd_type == Lcmd::Say {
            buf.clone()
        } else {
            match sp {
                Some(i) => s.substring_char(i + 1, n).to_owned(),
                None => String::new(),
            }
        };
        if cmd_type == Lcmd::Nick {
            let old_username = self.username.clone();
            self.username = content.clone();
            let mut notice = "[CLIENT]: you changed your nickname to ".to_owned();
            notice.append(self.username.as_str());
            let ghost msgs = self.messages.deep_view();
            self.messages.push(notice);
            proof {
                assert(self.messages.deep_view() =~= msgs.push(
                    "[CLIENT]: you changed your nickname to "@ + parse_content(buf@),
                ));
            }
            return Lcommand { cmd_type, user: old_username, content };
        }
        Lcommand { cmd_type, user: self.username.clone(), content }
    }

    /// Fixes the user field a command leaves under: the sender's current
    /// username, except a rename, which keeps the previous name it
    /// carries.
    pub fn outgoing_msg(msg: Lcommand, username: &String) -> (r: Lcommand)
        ensures
            r.cmd_type == msg.cmd_type,
            r.content@ == msg.content@,
            r.user@ == if msg.cmd_type is Nick {
                msg.user@
            } else {
                username@
            },
    {
        if msg.cmd_type == Lcmd::Nick {
            msg
        } else {
            Lcommand { cmd_type: msg.cmd_type, user: username.clone(), content: msg.content }
        }
    }

    /// Hands a command to the session's outgoing queue, stamping it with
    /// the current username first (a rename keeps its previous name). A
    /// disconnect drops the connected state at once. Returns whether a
    /// queue accepted the command: false when no session is active or the
    /// session's sender thread is gone.
    pub fn send_msg(&mut self, msg: Lcommand) -> (r: bool)
        ensures
            final(self).username == old(self).username,
            final(self).messages == old(self).messages,
            final(self).tx == old(self).tx,
            final(self).rx == old(self).rx,
            final(self).user_in == old(self).user_in,
            msg.cmd_type is Dc ==> final(self).connected is None,
            !(msg.cmd_type is Dc) ==> final(self).connected == old(self).connected,
            old(self).tx is None ==> r == false,
            r ==> old(self).tx is Some,
    {
        let out = Self::outgoing_msg(msg, &self.username);
        if out.cmd_type == Lcmd::Dc {
            self.connected = None;
        }
        match &self.tx {
            Some(tx) => send_cmd(tx, out),
            None => false,
        }
    }

    /// The implicit handshake a fresh session announces itself with: a
    /// connect command carrying the current username and no content.
    pub fn handshake(&self) -> (c: Lcommand)
        ensures
            c.cmd_type is Conn,
            c.user@ == self.username@,
            c.content@ == Seq::<char>::empty(),
    {
        Lcommand { cmd_type: Lcmd::Conn, user: self.username.clone(), content: String::new() }
    }

    /// Records a session that came up: remembers the address and the two
    /// queue ends, notes the join in the scrollback, and enqueues the
    /// handshake so the peer side learns of it. Returns whether the
    /// handshake was accepted by the queue.
    pub fn session_established(
        &mut self,
        addr: String,
        tx: Sender<Lcommand>,
        rx: Receiver<Lcommand>,
    ) -> (handshake_sent: bool)
        ensures
            final(self).username == old(self).username,
            final(self).user_in == old(self).user_in,
            final(self).connected == Some(addr),
            final(self).tx == Some(tx),
            final(self).rx == Some(rx),
            final(self).messages.deep_view() == old(self).messages.deep_view().push(
                "[CLIENT]: you joined "@ + addr@,
            ),
    {
        let mut line = "[CLIENT]: you joined ".to_owned();
        line.append(addr.as_str());
        let ghost msgs = self.messages.deep_view();
        self.messages.push(line);
        proof {
            assert(self.messages.deep_view() =~= msgs.push("[CLIENT]: you joined "@ + addr@));
        }
        let hs = self.handshake();
        let sent = send_cmd(&tx, hs);
        self.connected = Some(addr);
        self.tx = Some(tx);
        self.rx = Some(rx);
        sent
    }

    /// Records a session that could not be opened: only a notice joins
    /// the scrollback; the client stays as it was.
    pub fn session_failed(&mut self, addr: &String)
        ensures
            final(self).username == old(self).username,
            final(self).connected == old(self).connected,
            final(self).tx == old(self).tx,
            final(self).rx == old(self).rx,
            final(self).user_in == old(self).user_in,
            final(self).messages.deep_view() == old(self).messages.deep_view().push(
                "[CLIENT]: failed to join "@ + addr@,
            ),
    {
        let mut line = "[CLIENT]: failed to join ".to_owned();
        line.append(addr.as_str());
        let ghost msgs = self.messages.deep_view();
        self.messages.push(line);
        proof {
            assert(self.messages.deep_view() =~= msgs.push("[CLIENT]: failed to join "@ + addr@));
        }
    }

    /// Drains at most one pending inbound command from the session and
    /// appends its rendered line to the scrollback. Returns whether one
    /// arrived; whatever the queue held, only such a rendered line is
    /// appended.
    pub fn poll_inbound(&mut self) -> (got: bool)
        ensures
            final(self).username == old(self).username,
            final(self).connected == old(self).connected,
            final(self).tx == old(self).tx,
            final(self).rx == old(self).rx,
            final(self).user_in == old(self).user_in,
            old(self).rx is None ==> !got,
            got ==> exists|m: Lcommand|
                final(self).messages.deep_view() == old(self).messages.deep_view().push(
                    display_spec(m.cmd_type, m.user@, m.content@, false),
                ),
            !got ==> final(self).messages == old(self).messages,
    {
        let m = match &self.rx {
            Some(rx) => try_recv_cmd(rx),
            None => None,
        };
        match m {
            Some(cmd) => {
                let ghost mw = cmd;
                let ghost msgs = self.messages.deep_view();
                let line = cmd.display(false);
                self.messages.push(line);
                proof {
                    assert(self.messages.deep_view() =~= msgs.push(
                        display_spec(mw.cmd_type, mw.user@, mw.content@, false),
                    ));
                }
                true
            },
            None => false,
        }
    }

    /// Puts the welcome notices in the scrollback.
    pub fn print_welcome(&mut self)
        ensures
            final(self).username == old(self).username,
            final(self).connected == old(self).connected,
            final(self).tx == old(self).tx,
            final(self).rx == old(self).rx,
            final(self).user_in == old(self).user_in,
            final(self).messages.deep_view() == old(self).messages.deep_view().push(
                "Hi! Welcome to LightC! :)"@,
            ).push("Use '/help' to see all available commands"@),
    {
        let ghost msgs = self.messages.deep_view();
        self.messages.push("Hi! Welcome to LightC! :)".to_owned());
        self.messages.push("Use '/help' to see all available commands".to_owned());
        proof {
            assert(self.messages.deep_view() =~= msgs.push("Hi! Welcome to LightC! :)"@).push(
                "Use '/help' to see all available commands"@,
            ));
        }
    }

    /// Puts the command summary in the scrollback.
    pub fn print_help(&mut self)
        ensures
            final(self).username == old(self).username,
            final(self).connected == old(self).connected,
            final(self).tx == old(self).tx,
            final(self).rx == old(self).rx,
            final(self).user_in == old(self).user_in,
            final(self).messages.deep_view() == help_appended(old(self).messages.deep_view()),
    {
        let ghost msgs = self.messages.deep_view();
        self.messages.push("Commands: ".to_owned());
        self.messages.push("\t/connect <addr> : connect to server at <addr>".to_owned());
        self.messages.push("\t/disconnect : disconnect from connected server".to_owned());
        self.messages.push("\t/nick <nick> : change your username to <nick>".to_owned());
        self.messages.push(
            "\t/quit : disconnect from the connected server and close the client".to_owned(),
        );
        proof {
            assert(self.messages.deep_view() =~= msgs.push("Commands: "@).push(
                "\t/connect <addr> : connect to server at <addr>"@,
            ).push("\t/disconnect : disconnect from connected server"@).push(
                "\t/nick <nick> : change your username to <nick>"@,
            ).push("\t/quit : disconnect from the connected server and close the client"@));
        }
    }

    /// Handles one submitted input line: parses it under the local
    /// grammar, applies the local effect, and says what the surroundings
    /// must do. Chat text and a disconnect go to the session; on success
    /// the local echo joins the scrollback, otherwise the client notes it
    /// is not connected and drops its connected state. A rename and the
    /// help verb are local only; quitting asks the surroundings to exit
    /// after handing the session its final command; connecting asks them
    /// to open a session to the given address.
    pub fn handle_line(&mut self, line: String) -> (act: UiAction)
        ensures
            line_handled(*old(self), *final(self), line@, act),
    {
        let cmd = self.parse_cmd(line);
        match cmd.cmd_type {
            Lcmd::Quit => {
                let _ = self.send_msg(cmd);
                UiAction::Exit
            },
            Lcmd::Conn => UiAction::OpenSession(cmd.content),
            Lcmd::Help => {
                self.print_help();
                UiAction::Stay
            },
            Lcmd::Nick => UiAction::Stay,
            _ => {
                let echo = cmd.clone();
                let ok = self.send_msg(cmd);
                if ok {
                    let ghost msgs = self.messages.deep_view();
                    let rendered = echo.display(true);
                    self.messages.push(rendered);
                    proof {
                        assert(self.messages.deep_view() =~= msgs.push(
                            display_spec(echo.cmd_type, echo.user@, echo.content@, true),
                        ));
                    }
                } else {
                    self.connected = None;
                    let ghost msgs = self.messages.deep_view();
                    self.messages.push("[CLIENT]: not connected to a server".to_owned());
                    proof {
                        assert(self.messages.deep_view() =~= msgs.push(
                            "[CLIENT]: not connected to a server"@,
                        ));
                    }
                }
                UiAction::Stay
            },
        }
    }
}

/// Relies on String's FromIterator over char: collecting characters
/// yields the string of exactly those characters in order.
#[verifier::external_body]
fn chars_to_string(v: &Vec<char>) -> (s: String)
    ensures
        s@ == v@,
{
    v.iter().collect()
}

/// Feeds one keystroke to the pending line buffer: a newline submits the
/// buffered line and clears the buffer, a backspace drops the last
/// buffered character (nothing on an empty buffer), anything else is
/// appended.
pub fn edit_line(buf: &mut Vec<char>, c: char) -> (submitted: Option<String>)
    ensures
        match submitted {
            Some(s) => c == '\n' && s@ == old(buf)@ && final(buf)@ == Seq::<char>::empty(),
            None => c != '\n' && final(buf)@ == (if c == '\u{8}' {
                if old(buf)@.len() == 0 {
                    old(buf)@
                } else {
                    old(buf)@.drop_last()
                }
            } else {
                old(buf)@.push(c)
            }),
        },
{
    if c == '\n' {
        let line = chars_to_string(buf);
        buf.clear();
        Some(line)
    } else if c == '\u{8}' {
        let _ = buf.pop();
        None
    } else {
        buf.push(c);
        None
    }
}

} // verus!
