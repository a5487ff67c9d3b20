//! The protocol data model: a chat command and its newline-delimited wire
//! codec. A frame is `KIND\nUSER\nCONTENT\n` with KIND one of `CONNECT`,
//! `DISCONNECT`, `SAY`; a rename (`Nick`) is applied locally and never
//! transmitted, and `Quit` goes out as `DISCONNECT`.

use vstd::prelude::*;
use vstd::string::*;

verus! {

/// The kind of a command. `Conn`, `Dc` and `Say` appear on the wire;
/// `Nick`, `Quit` and `Help` originate at the client and are translated
/// or handled locally before transmission.
#[derive(Debug, Clone, Copy, PartialEq, Eq, Structural)]
pub enum Lcmd {
    Conn,
    Dc,
    Say,
    Nick,
    Quit,
    Help,
}

/// One message unit: a kind, the originating user's display name, and
/// free text content (empty except for `Say` and `Nick`).
#[derive(Debug)]
pub struct Lcommand {
    pub cmd_type: Lcmd,
    pub user: String,
    pub content: String,
}

/// Decoding failure: the frame is malformed. The owning connection is
/// torn down; no other connection is affected.
#[derive(Debug, Clone, Copy, PartialEq, Eq, Structural)]
pub enum ProtocolError {
    /// The first token is not one of `SAY`, `CONNECT`, `DISCONNECT`.
    UnknownKind,
    /// The buffer has fewer newline-separated tokens than the kind needs.
    MissingField,
}

/// Holds when a string is free of the frame delimiter.
pub open spec fn no_nl(s: Seq<char>) -> bool {
    forall|i: int| 0 <= i < s.len() ==> s[i] != '\n'
}

/// The kinds that may be handed to the encoder: everything the client
/// ever enqueues for the wire (`Quit` is translated to `DISCONNECT`).
pub open spec fn wire_kind(k: Lcmd) -> bool {
    k is Conn || k is Dc || k is Say || k is Quit
}

/// The keyword a kind is framed under.
pub open spec fn wire_keyword(k: Lcmd) -> Seq<char> {
    match k {
        Lcmd::Conn => "CONNECT"@,
        Lcmd::Say => "SAY"@,
        _ => "DISCONNECT"@,
    }
}

/// The frame a command encodes to: keyword, user and content, each
/// terminated by a newline.
pub open spec fn encode_spec(k: Lcmd, user: Seq<char>, content: Seq<char>) -> Seq<char> {
    wire_keyword(k) + seq!['\n'] + user + seq!['\n'] + content + seq!['\n']
}

/// The position of the first occurrence of `c` in `s` at or after `from`.
pub open spec fn find_ch(s: Seq<char>, c: char, from: int) -> Option<int>
    decreases s.len() - from,
{
    if from < 0 || from >= s.len() {
        None
    } else if s[from] == c {
        Some(from)
    } else {
        find_ch(s, c, from + 1)
    }
}

/// Where the newline-delimited token starting at `from` ends: at the next
/// newline, or at the end of the buffer (as `str::split` treats the tail
/// after the last delimiter as one more token).
pub open spec fn token_end(s: Seq<char>, from: int) -> int {
    match find_ch(s, '\n', from) {
        Some(i) => i,
        None => s.len() as int,
    }
}

/// The newline-delimited token starting at `from`.
pub open spec fn token_at(s: Seq<char>, from: int) -> Seq<char> {
    s.subrange(from, token_end(s, from))
}

/// The kind selected by a frame's first token, if it is recognized.
pub open spec fn kind_of_token(t: Seq<char>) -> Option<Lcmd> {
    if t == "SAY"@ {
        Some(Lcmd::Say)
    } else if t == "CONNECT"@ {
        Some(Lcmd::Conn)
    } else if t == "DISCONNECT"@ {
        Some(Lcmd::Dc)
    } else {
        None
    }
}

/// What decoding a received buffer yields: the kind, user and content of
/// the frame, or the error. The first token picks the kind; the second is
/// the user; only `SAY` carries content, in the third token. A missing
/// token or an unrecognized first token is an error, never a crash.
pub open spec fn decode_spec(s: Seq<char>) -> Result<(Lcmd, Seq<char>, Seq<char>), ProtocolError> {
    match kind_of_token(token_at(s, 0)) {
        None => Err(ProtocolError::UnknownKind),
        Some(k) => match find_ch(s, '\n', 0) {
            None => Err(ProtocolError::MissingField),
            Some(i0) => {
                let user = token_at(s, i0 + 1);
                if k is Say {
                    match find_ch(s, '\n', i0 + 1) {
                        None => Err(ProtocolError::MissingField),
                        Some(i1) => Ok((k, user, token_at(s, i1 + 1))),
                    }
                } else {
                    Ok((k, user, Seq::empty()))
                }
            },
        },
    }
}

/// If `p` is the first position in `[from, len)` holding `c`, the search
/// finds it.
proof fn lemma_find_ch_hit(s: Seq<char>, c: char, from: int, p: int)
    requires
        0 <= from <= p < s.len(),
        s[p] == c,
        forall|j: int| from <= j < p ==> s[j] != c,
    ensures
        find_ch(s, c, from) == Some(p),
    decreases p - from,
{
    if from < p {
        lemma_find_ch_hit(s, c, from + 1, p);
    }
}

/// If no position in `[from, len)` holds `c`, the search finds nothing.
proof fn lemma_find_ch_miss(s: Seq<char>, c: char, from: int)
    requires
        0 <= from <= s.len(),
        forall|j: int| from <= j < s.len() ==> s[j] != c,
    ensures
        find_ch(s, c, from) is None,
    decreases s.len() - from,
{
    if from < s.len() {
        lemma_find_ch_miss(s, c, from + 1);
    }
}

/// The first occurrence of `c` in `s` at or after `from`, by a linear scan.
pub(crate) fn find_char(s: &str, c: char, from: usize) -> (r: Option<usize>)
    requires
        from <= s@.len(),
    ensures
        match r {
            Some(i) => find_ch(s@, c, from as int) == Some(i as int) && from <= i < s@.len(),
            None => find_ch(s@, c, from as int) is None,
        },
{
    let n = s.unicode_len();
    let mut i = from;
    while i < n
        invariant
            from <= i <= n,
            n == s@.len(),
            forall|j: int| from <= j < i ==> s@[j] != c,
        decreases n - i,
    {
        if s.get_char(i) == c {
            proof {
                lemma_find_ch_hit(s@, c, from as int, i as int);
            }
            return Some(i);
        }
        i = i + 1;
    }
    proof {
        lemma_find_ch_miss(s@, c, from as int);
    }
    None
}

/// Whether two string slices hold the same characters.
pub(crate) fn str_eq(a: &str, b: &str) -> (r: bool)
    ensures
        r == (a@ == b@),
{
    let na = a.unicode_len();
    let nb = b.unicode_len();
    if na != nb {
        return false;
    }
    let mut i: usize = 0;
    while i < na
        invariant
            0 <= i <= na,
            na == a@.len(),
            na == b@.len(),
            forall|j: int| 0 <= j < i ==> a@[j] == b@[j],
        decreases na - i,
    {
        if a.get_char(i) != b.get_char(i) {
            return false;
        }
        i = i + 1;
    }
    proof {
        assert(a@ =~= b@);
    }
    true
}

/// The display line a command renders to. `from_client` tells a local
/// echo apart from a command received over the network.
pub open spec fn display_spec(k: Lcmd, user: Seq<char>, content: Seq<char>, from_client: bool) -> Seq<
    char,
> {
    if !from_client {
        match k {
            Lcmd::Say => "<"@ + user + ">: "@ + content,
            Lcmd::Conn => "[SERVER]: "@ + user + " joined"@,
            Lcmd::Dc => "[SERVER]: "@ + user + " left"@,
            Lcmd::Nick => "[SERVER]: "@ + user + " changed their nickname to "@ + content,
            _ => Seq::empty(),
        }
    } else {
        match k {
            Lcmd::Say => "<"@ + user + ">: "@ + content,
            Lcmd::Conn => "[CLIENT]: you joined"@,
            Lcmd::Dc => "[CLIENT]: you left"@,
            _ => Seq::empty(),
        }
    }
}

impl Clone for Lcommand {
    /// Cloning keeps every field's value.
    fn clone(&self) -> (r: Lcommand)
        ensures
            r.cmd_type == self.cmd_type,
            r.user@ == self.user@,
            r.content@ == self.content@,
    {
        Lcommand { cmd_type: self.cmd_type, user: self.user.clone(), content: self.content.clone() }
    }
}

impl Lcommand {
    /// Encodes the command to its wire frame.
    pub fn encode(&self) -> (r: String)
        requires
            wire_kind(self.cmd_type),
        ensures
            r@ == encode_spec(self.cmd_type, self.user@, self.content@),
    {
        let mut out = String::new();
        match self.cmd_type {
            Lcmd::Conn => out.append("CONNECT"),
            Lcmd::Say => out.append("SAY"),
            _ => out.append("DISCONNECT"),
        }
        out.append("\n");
        out.append(self.user.as_str());
        out.append("\n");
        out.append(self.content.as_str());
        out.append("\n");
        proof {
            reveal_strlit("\n");
            assert("\n"@ =~= seq!['\n']);
            assert(out@ =~= encode_spec(self.cmd_type, self.user@, self.content@));
        }
        out
    }

    /// Decodes a received buffer into a command, or reports how the frame
    /// is malformed. Never panics: an unknown first token or a missing
    /// field is an error the caller tears the connection down on.
    pub fn from(buf: String) -> (r: Result<Lcommand, ProtocolError>)
        ensures
            match r {
                Ok(c) => decode_spec(buf@) == Ok::<_, ProtocolError>(
                    (c.cmd_type, c.user@, c.content@),
                ),
                Err(e) => decode_spec(buf@) == Err::<(Lcmd, Seq<char>, Seq<char>), _>(e),
            },
    {
        let s = buf.as_str();
        let n = s.unicode_len();
        let e0 = find_char(s, '\n', 0);
        let t0_end = match e0 {
            Some(i) => i,
            None => n,
        };
        let t0 = s.substring_char(0, t0_end);
        proof {
            assert(t0@ == token_at(s@, 0));
        }
        let kind = if str_eq(t0, "SAY") {
            Some(Lcmd::Say)
        } else if str_eq(t0, "CONNECT") {
            Some(Lcmd::Conn)
        } else if str_eq(t0, "DISCONNECT") {
            Some(Lcmd::Dc)
        } else {
            None
        };
        match kind {
            None => Err(ProtocolError::UnknownKind),
            Some(k) => match e0 {
                None => Err(ProtocolError::MissingField),
                Some(i0) => {
                    let e1 = find_char(s, '\n', i0 + 1);
                    let u_end = match e1 {
                        Some(i) => i,
                        None => n,
                    };
                    let user = s.substring_char(i0 + 1, u_end).to_owned();
                    if k == Lcmd::Say {
                        match e1 {
                            None => Err(ProtocolError::MissingField),
                            Some(i1) => {
                                let e2 = find_char(s, '\n', i1 + 1);
                                let c_end = match e2 {
                                    Some(i) => i,
                                    None => n,
                                };
                                let content = s.substring_char(i1 + 1, c_end).to_owned();
                                Ok(Lcommand { cmd_type: k, user, content })
                            },
                        }
                    } else {
                        Ok(Lcommand { cmd_type: k, user, content: String::new() })
                    }
                },
            },
        }
    }

    /// Renders the command to its display line.
    pub fn display(self, from_client: bool) -> (r: String)
        ensures
            r@ == display_spec(self.cmd_type, self.user@, self.content@, from_client),
    {
        let mut out = String::new();
        if !from_client {
            match self.cmd_type {
                Lcmd::Say => {
                    out.append("<");
                    out.append(self.user.as_str());
                    out.append(">: ");
                    out.append(self.content.as_str());
                },
                Lcmd::Conn => {
                    out.append("[SERVER]: ");
                    out.append(self.user.as_str());
                    out.append(" joined");
                },
                Lcmd::Dc => {
                    out.append("[SERVER]: ");
                    out.append(self.user.as_str());
                    out.append(" left");
                },
                Lcmd::Nick => {
                    out.append("[SERVER]: ");
                    out.append(self.user.as_str());
                    out.append(" changed their nickname to ");
                    out.append(self.content.as_str());
                },
                _ => {},
            }
        } else {
            match self.cmd_type {
                Lcmd::Say => {
                    out.append("<");
                    out.append(self.user.as_str());
                    out.append(">: ");
                    out.append(self.content.as_str());
                },
                Lcmd::Conn => out.append("[CLIENT]: you joined"),
                Lcmd::Dc => out.append("[CLIENT]: you left"),
                _ => {},
            }
        }
        proof {
            assert(out@ =~= display_spec(self.cmd_type, self.user@, self.content@, from_client));
        }
        out
    }
}

/// Decoding an encoded frame always succeeds and yields the fields that
/// went in, with the two sanctioned translations: `Quit` comes back as
/// `Dc` (it is framed as `DISCONNECT`), and content is dropped for every
/// kind but `Say`.
pub proof fn lemma_decode_encode(k: Lcmd, user: Seq<char>, content: Seq<char>)
    requires
        wire_kind(k),
        no_nl(user),
        no_nl(content),
    ensures
        decode_spec(encode_spec(k, user, content)) == Ok::<_, ProtocolError>(
            (
                if k is Quit {
                    Lcmd::Dc
                } else {
                    k
                },
                user,
                if k is Say {
                    content
                } else {
                    Seq::<char>::empty()
                },
            ),
        ),
{
    reveal_strlit("SAY");
    reveal_strlit("CONNECT");
    reveal_strlit("DISCONNECT");
    let kw = wire_keyword(k);
    let e = encode_spec(k, user, content);
    let l0 = kw.len() as int;
    let l1 = l0 + 1 + user.len();
    let l2 = l1 + 1 + content.len();
    assert(e.len() == l2 + 1);
    assert(forall|i: int| 0 <= i < l0 ==> e[i] == kw[i]);
    assert(forall|i: int| 0 <= i < l0 ==> e[i] != '\n');
    assert(e[l0] == '\n');
    assert(forall|i: int| l0 < i < l1 ==> e[i] == user[i - l0 - 1]);
    assert(forall|i: int| l0 < i < l1 ==> e[i] != '\n');
    assert(e[l1] == '\n');
    assert(forall|i: int| l1 < i < l2 ==> e[i] == content[i - l1 - 1]);
    assert(forall|i: int| l1 < i < l2 ==> e[i] != '\n');
    assert(e[l2] == '\n');
    lemma_find_ch_hit(e, '\n', 0, l0);
    lemma_find_ch_hit(e, '\n', l0 + 1, l1);
    lemma_find_ch_hit(e, '\n', l1 + 1, l2);
    assert(token_at(e, 0) =~= kw);
    assert(token_at(e, l0 + 1) =~= user);
    assert(token_at(e, l1 + 1) =~= content);
    assert(kind_of_token(kw) == Some(
        if k is Quit {
            Lcmd::Dc
        } else {
            k
        },
    ));
}

/// Law: a command round-trips through the wire. For every command whose
/// kind appears on the wire unchanged and whose fields hold the data
/// model's invariants (no embedded newline; content empty except for
/// `Say`), decoding the encoded frame gives the command back.
pub proof fn lemma_round_trip(k: Lcmd, user: Seq<char>, content: Seq<char>)
    requires
        k is Conn || k is Dc || k is Say,
        no_nl(user),
        no_nl(content),
        !(k is Say) ==> content == Seq::<char>::empty(),
    ensures
        decode_spec(encode_spec(k, user, content)) == Ok::<_, ProtocolError>((k, user, content)),
{
    lemma_decode_encode(k, user, content);
}

/// Law: decode is total on encoded frames. Whatever the encoder was
/// handed (any encodable kind, fields free of the delimiter), the frame
/// it produced decodes without error.
pub proof fn lemma_encode_total(k: Lcmd, user: Seq<char>, content: Seq<char>)
    requires
        wire_kind(k),
        no_nl(user),
        no_nl(content),
    ensures
        decode_spec(encode_spec(k, user, content)) is Ok,
{
    lemma_decode_encode(k, user, content);
}

/// Law: a buffer whose first token is not one of `SAY`, `CONNECT`,
/// `DISCONNECT` decodes to the unknown-kind error, never anything else.
pub proof fn lemma_unknown_kind_rejected(s: Seq<char>)
    requires
        kind_of_token(token_at(s, 0)) is None,
    ensures
        decode_spec(s) == Err::<(Lcmd, Seq<char>, Seq<char>), _>(ProtocolError::UnknownKind),
{
}

} // verus!

