//! The wire protocol's message types and the serializer for outbound lines.
//! One JSON object per line; the exact character sequence of every encoded
//! line is specified here.

use vstd::prelude::*;

use crate::clock::TimestampValue;
use crate::text::push_char;
use vstd::string::StringExecFns;

verus! {

/// Server-issued challenge: `{"type":"challenge","nonce":...}`.
#[derive(Debug, Clone)]
pub struct Challenge {
    pub msg_type: String,
    pub nonce: String,
}

/// Outbound credential: `{"type":"auth",...}`.
#[derive(Debug, Clone)]
pub struct AuthMsg {
    pub msg_type: String,
    pub pubkey: String,
    pub username: String,
    pub sig: String,
}

/// Outbound enrollment: `{"type":"enroll",...}`.
#[derive(Debug, Clone)]
pub struct EnrollMsg {
    pub msg_type: String,
    pub username: String,
    pub pubkey: String,
    pub invite_code: String,
}

/// Server's answer to a credential: `auth_ok`, or anything else with an
/// optional reason.
#[derive(Debug, Clone)]
pub struct AuthResponse {
    pub msg_type: String,
    pub reason: Option<String>,
}

/// Outbound chat text: `{"type":"msg","text":...}`.
#[derive(Debug, Clone)]
pub struct ClientMsg {
    pub msg_type: String,
    pub text: String,
}

/// A decoded inbound server message, after tolerant normalization: the
/// polymorphic timestamp is a `TimestampValue`, and the several historical
/// user-presence fields are folded into one count and one name list.
#[derive(Debug, Clone)]
pub struct ServerMsg {
    pub msg_type: String,
    pub from: Option<String>,
    pub text: Option<String>,
    pub timestamp: TimestampValue,
    pub users_count: Option<u64>,
    pub user_names: Option<Vec<String>>,
    pub action: Option<String>,
    pub data: Option<String>,
}

pub open spec fn hex_digit(n: int) -> char {
    if n == 0 {
        '0'
    } else if n == 1 {
        '1'
    } else if n == 2 {
        '2'
    } else if n == 3 {
        '3'
    } else if n == 4 {
        '4'
    } else if n == 5 {
        '5'
    } else if n == 6 {
        '6'
    } else if n == 7 {
        '7'
    } else if n == 8 {
        '8'
    } else if n == 9 {
        '9'
    } else if n == 10 {
        'a'
    } else if n == 11 {
        'b'
    } else if n == 12 {
        'c'
    } else if n == 13 {
        'd'
    } else if n == 14 {
        'e'
    } else {
        'f'
    }
}

fn hex_digit_exec(n: u32) -> (r: char)
    requires
        n < 16,
    ensures
        r == hex_digit(n as int),
{
    if n == 0 {
        '0'
    } else if n == 1 {
        '1'
    } else if n == 2 {
        '2'
    } else if n == 3 {
        '3'
    } else if n == 4 {
        '4'
    } else if n == 5 {
        '5'
    } else if n == 6 {
        '6'
    } else if n == 7 {
        '7'
    } else if n == 8 {
        '8'
    } else if n == 9 {
        '9'
    } else if n == 10 {
        'a'
    } else if n == 11 {
        'b'
    } else if n == 12 {
        'c'
    } else if n == 13 {
        'd'
    } else if n == 14 {
        'e'
    } else {
        'f'
    }
}

/// How one character is written inside a JSON string literal.
pub open spec fn esc_char(c: char) -> Seq<char> {
    if c == '"' {
        "\\\""@
    } else if c == '\\' {
        "\\\\"@
    } else if c == '\u{8}' {
        "\\b"@
    } else if c == '\u{c}' {
        "\\f"@
    } else if c == '\n' {
        "\\n"@
    } else if c == '\r' {
        "\\r"@
    } else if c == '\t' {
        "\\t"@
    } else if (c as u32) < 0x20 {
        "\\u00"@.push(hex_digit(c as u32 as int / 16)).push(hex_digit(c as u32 as int % 16))
    } else {
        seq![c]
    }
}

/// How a whole string is escaped inside a JSON string literal.
pub open spec fn esc(s: Seq<char>) -> Seq<char>
    decreases s.len(),
{
    if s.len() == 0 {
        Seq::empty()
    } else {
        esc(s.drop_last()) + esc_char(s.last())
    }
}

/// A complete JSON string literal, quotes included.
pub open spec fn jstr(s: Seq<char>) -> Seq<char> {
    "\""@ + esc(s) + "\""@
}

fn append_escaped(out: &mut String, s: &str)
    ensures
        final(out)@ == old(out)@ + esc(s@),
{
    let cs = crate::text::chars_of(s);
    let n = cs.len();
    let mut i: usize = 0;
    while i < n
        invariant
            cs@ == s@,
            n == cs@.len(),
            i <= n,
            out@ == old(out)@ + esc(s@.take(i as int)),
        decreases n - i,
    {
        let c = cs[i];
        if c == '"' {
            out.append("\\\"");
        } else if c == '\\' {
            out.append("\\\\");
        } else if c == '\u{8}' {
            out.append("\\b");
        } else if c == '\u{c}' {
            out.append("\\f");
        } else if c == '\n' {
            out.append("\\n");
        } else if c == '\r' {
            out.append("\\r");
        } else if c == '\t' {
            out.append("\\t");
        } else if (c as u32) < 0x20 {
            out.append("\\u00");
            push_char(out, hex_digit_exec((c as u32) / 16));
            push_char(out, hex_digit_exec((c as u32) % 16));
        } else {
            push_char(out, c);
        }
        proof {
            assert(s@.take(i + 1).drop_last() =~= s@.take(i as int));
            assert(s@.take(i + 1).last() == s@[i as int]);
            assert(out@ =~= old(out)@ + esc(s@.take(i + 1)));
        }
        i += 1;
    }
    proof {
        assert(s@.take(n as int) =~= s@);
    }
}

fn append_json_string(out: &mut String, s: &str)
    ensures
        final(out)@ == old(out)@ + jstr(s@),
{
    out.append("\"");
    append_escaped(out, s);
    out.append("\"");
}

/// The encoded `auth` line (no trailing newline).
pub open spec fn auth_line(ty: Seq<char>, pubkey: Seq<char>, username: Seq<char>, sig: Seq<char>) -> Seq<char> {
    "{\"type\":"@ + jstr(ty) + ",\"pubkey\":"@ + jstr(pubkey) + ",\"username\":"@ + jstr(username)
        + ",\"sig\":"@ + jstr(sig) + "}"@
}

pub fn encode_auth(m: &AuthMsg) -> (r: String)
    ensures
        r@ == auth_line(m.msg_type@, m.pubkey@, m.username@, m.sig@),
{
    let mut out = "{\"type\":".to_owned();
    append_json_string(&mut out, m.msg_type.as_str());
    out.append(",\"pubkey\":");
    append_json_string(&mut out, m.pubkey.as_str());
    out.append(",\"username\":");
    append_json_string(&mut out, m.username.as_str());
    out.append(",\"sig\":");
    append_json_string(&mut out, m.sig.as_str());
    out.append("}");
    out
}

/// The encoded `enroll` line (no trailing newline).
pub open spec fn enroll_line(ty: Seq<char>, username: Seq<char>, pubkey: Seq<char>, invite: Seq<char>) -> Seq<char> {
    "{\"type\":"@ + jstr(ty) + ",\"username\":"@ + jstr(username) + ",\"pubkey\":"@ + jstr(pubkey)
        + ",\"invite_code\":"@ + jstr(invite) + "}"@
}

pub fn encode_enroll(m: &EnrollMsg) -> (r: String)
    ensures
        r@ == enroll_line(m.msg_type@, m.username@, m.pubkey@, m.invite_code@),
{
    let mut out = "{\"type\":".to_owned();
    append_json_string(&mut out, m.msg_type.as_str());
    out.append(",\"username\":");
    append_json_string(&mut out, m.username.as_str());
    out.append(",\"pubkey\":");
    append_json_string(&mut out, m.pubkey.as_str());
    out.append(",\"invite_code\":");
    append_json_string(&mut out, m.invite_code.as_str());
    out.append("}");
    out
}

/// The encoded chat `msg` line (no trailing newline).
pub open spec fn client_msg_line(ty: Seq<char>, text: Seq<char>) -> Seq<char> {
    "{\"type\":"@ + jstr(ty) + ",\"text\":"@ + jstr(text) + "}"@
}

pub fn encode_client_msg(m: &ClientMsg) -> (r: String)
    ensures
        r@ == client_msg_line(m.msg_type@, m.text@),
{
    let mut out = "{\"type\":".to_owned();
    append_json_string(&mut out, m.msg_type.as_str());
    out.append(",\"text\":");
    append_json_string(&mut out, m.text.as_str());
    out.append("}");
    out
}

/// The encoded `admin_cmd` line (no trailing newline).
pub open spec fn admin_cmd_line(action: Seq<char>) -> Seq<char> {
    "{\"type\":\"admin_cmd\",\"action\":"@ + jstr(action) + "}"@
}

pub fn encode_admin_cmd(action: &str) -> (r: String)
    ensures
        r@ == admin_cmd_line(action@),
{
    let mut out = "{\"type\":\"admin_cmd\",\"action\":".to_owned();
    append_json_string(&mut out, action);
    out.append("}");
    out
}

} // verus!
