//! The connector's protocol state machine. One session runs: transport
//! comes up, the server's challenge is answered with a credential, the
//! server's verdict is read, then a streaming loop multiplexes inbound lines
//! with outbound commands. The machine here is pure decision logic: the
//! caller feeds it transport events and it returns the lines to send and the
//! events to surface. Every terminal step ends with exactly one
//! `Disconnected`, preceded by an `Error` only when the session failed.

use vstd::prelude::*;

use crate::codec::auth_resp_ok;
use crate::codec::challenge_ok;
use crate::codec::decode_auth_response;
use crate::codec::decode_challenge;
use crate::codec::decode_server_msg;
use crate::codec::opt_text_val;
use crate::codec::server_msg_matches;
use crate::codec::server_msg_ok;
use crate::identity::Identity;
use crate::identity::sign_nonce;
use crate::identity::signature_of;
use crate::json::JsonVal;
use crate::json::json_doc;
use crate::json::json_parse;
use crate::text::str_eq;
use crate::text::trim_line;
use crate::text::trim_spec;
use crate::wire::AuthMsg;
use crate::wire::ClientMsg;
use crate::wire::EnrollMsg;
use crate::wire::ServerMsg;
use crate::wire::admin_cmd_line;
use crate::wire::auth_line;
use crate::wire::client_msg_line;
use crate::wire::encode_admin_cmd;
use crate::wire::encode_auth;
use crate::wire::encode_client_msg;
use crate::wire::encode_enroll;
use crate::wire::enroll_line;
use vstd::string::StringExecFns;

verus! {

/// Events a session surfaces to its consumer.
#[derive(Debug, Clone)]
pub enum NetEvent {
    Connected,
    AuthOk { username: String },
    AuthFail { reason: String },
    Message(ServerMsg),
    AdminResponse { action: String, data: String },
    Error(String),
    Disconnected,
}

/// Commands a consumer sends into a streaming session.
#[derive(Debug, Clone)]
pub enum NetCommand {
    SendMessage(String),
    SendAdminCmd(String),
}

/// Everything one connection attempt needs, fixed up front. The identity is
/// the signing capability for the challenge; it may be absent only when an
/// enrollment code is supplied instead.
pub struct NetParams {
    pub server: String,
    pub username: String,
    pub pubkey_b64: String,
    pub identity: Option<Identity>,
    pub enroll_code: Option<String>,
    pub insecure: bool,
}

impl NetParams {
    pub open spec fn wf(&self) -> bool {
        &&& (self.enroll_code is None ==> self.identity is Some)
        &&& (self.identity matches Some(id) ==> id.wf())
    }
}

/// Where a session stands.
#[derive(Debug, Clone, Copy, PartialEq, Eq, Structural)]
pub enum SessionPhase {
    /// Transport (TCP + TLS) not up yet.
    Opening,
    /// Waiting for the server's challenge line.
    AwaitChallenge,
    /// Credential sent; waiting for the server's verdict.
    AwaitAuthResult,
    /// Authenticated; relaying lines and commands.
    Streaming,
    /// Finished; no further outputs ever.
    Terminated,
}

/// What the transport layer feeds the machine.
#[derive(Debug)]
pub enum SessionInput {
    /// The TCP + TLS transport is established.
    TransportUp,
    /// One full line read from the socket (newline already stripped or not;
    /// surrounding whitespace is ignored).
    Line(String),
    /// An outbound command from the consumer.
    Command(NetCommand),
    /// The consumer dropped its command channel: the sole cancellation
    /// signal.
    CommandsClosed,
    /// The server closed the stream (zero-length read).
    Eof,
    /// A transport fault, with its description.
    Fault(String),
}

/// What one step of the machine asks the caller to do, in order.
#[derive(Debug)]
pub enum SessionOutput {
    /// Write this line, followed by a newline, to the socket.
    Send(String),
    /// Surface this event to the consumer.
    Emit(NetEvent),
}

pub open spec fn is_disconnect(o: SessionOutput) -> bool {
    o matches SessionOutput::Emit(NetEvent::Disconnected)
}

pub open spec fn disconnect_count(outs: Seq<SessionOutput>) -> nat {
    outs.filter(|o: SessionOutput| is_disconnect(o)).len()
}

/// A failing exit: the error surfaced, then the one final `Disconnected`.
pub open spec fn error_exit(outs: Seq<SessionOutput>, msg: Seq<char>) -> bool {
    &&& outs.len() == 2
    &&& outs[0] matches SessionOutput::Emit(NetEvent::Error(m)) && m@ == msg
    &&& is_disconnect(outs[1])
}

/// A clean exit: the one final `Disconnected` and nothing else.
pub open spec fn clean_exit(outs: Seq<SessionOutput>) -> bool {
    outs.len() == 1 && is_disconnect(outs[0])
}

pub open spec fn msg_expected_challenge() -> Seq<char> {
    "Expected challenge from server"@
}

pub open spec fn msg_expected_auth() -> Seq<char> {
    "Expected auth response"@
}

pub open spec fn msg_wrong_challenge(ty: Seq<char>) -> Seq<char> {
    "Expected 'challenge', got '"@ + ty + "'"@
}

pub open spec fn msg_bad_nonce() -> Seq<char> {
    "Invalid base64 nonce"@
}

/// The type and nonce of a line that decodes as a challenge.
pub open spec fn challenge_parts(d: Option<JsonVal>) -> Option<(Seq<char>, Seq<char>)> {
    match d {
        Some(v) => match v {
            JsonVal::Obj(fs) => if challenge_ok(fs@) {
                Some((opt_text_val(fs@, "type"@)->0, opt_text_val(fs@, "nonce"@)->0))
            } else {
                None
            },
            _ => None,
        },
        None => None,
    }
}

/// The type and optional reason of a line that decodes as an auth response.
pub open spec fn auth_parts(d: Option<JsonVal>) -> Option<(Seq<char>, Option<Seq<char>>)> {
    match d {
        Some(v) => match v {
            JsonVal::Obj(fs) => if auth_resp_ok(fs@) {
                Some((opt_text_val(fs@, "type"@)->0, opt_text_val(fs@, "reason"@)))
            } else {
                None
            },
            _ => None,
        },
        None => None,
    }
}

/// What a step on a line in `AwaitChallenge` must produce: a credential sent
/// for a good challenge, a terminal error otherwise. With an enrollment code
/// the credential is an `enroll` line; otherwise the nonce is signed and an
/// `auth` line is sent. Exactly one credential line per attempt.
pub open spec fn challenge_step_ok(
    params: &NetParams,
    line: Seq<char>,
    r: (SessionPhase, Vec<SessionOutput>),
) -> bool {
    match challenge_parts(json_doc(trim_spec(line))) {
        None => r.0 is Terminated && error_exit(r.1@, msg_expected_challenge()),
        Some(parts) => if parts.0 != "challenge"@ {
            r.0 is Terminated && error_exit(r.1@, msg_wrong_challenge(parts.0))
        } else {
            match params.enroll_code {
                Some(code) => {
                    &&& r.0 is AwaitAuthResult
                    &&& r.1@.len() == 1
                    &&& r.1@[0] matches SessionOutput::Send(l) && l@ == enroll_line(
                        "enroll"@,
                        params.username@,
                        params.pubkey_b64@,
                        code@,
                    )
                },
                None => match signature_of(params.identity->0.seed_view(), parts.1) {
                    Some(sig) => {
                        &&& r.0 is AwaitAuthResult
                        &&& r.1@.len() == 1
                        &&& r.1@[0] matches SessionOutput::Send(l) && l@ == auth_line(
                            "auth"@,
                            params.pubkey_b64@,
                            params.username@,
                            sig,
                        )
                    },
                    None => r.0 is Terminated && error_exit(r.1@, msg_bad_nonce()),
                },
            }
        },
    }
}

/// What a step on a line in `AwaitAuthResult` must produce: `auth_ok` opens
/// the stream; any other verdict fails authentication cleanly (no error
/// event — the consumer offers enrollment instead); an undecodable line is a
/// protocol error.
pub open spec fn auth_step_ok(
    params: &NetParams,
    line: Seq<char>,
    r: (SessionPhase, Vec<SessionOutput>),
) -> bool {
    match auth_parts(json_doc(trim_spec(line))) {
        None => r.0 is Terminated && error_exit(r.1@, msg_expected_auth()),
        Some(parts) => if parts.0 == "auth_ok"@ {
            &&& r.0 is Streaming
            &&& r.1@.len() == 1
            &&& r.1@[0] matches SessionOutput::Emit(NetEvent::AuthOk { username }) && username@
                == params.username@
        } else {
            &&& r.0 is Terminated
            &&& r.1@.len() == 2
            &&& r.1@[0] matches SessionOutput::Emit(NetEvent::AuthFail { reason }) && reason@ == (
            match parts.1 {
                Some(x) => x,
                None => "auth_fail"@,
            })
            &&& is_disconnect(r.1@[1])
        },
    }
}

/// What a step on a line in `Streaming` must produce. Lines that are blank,
/// fail to parse, or decode to a message of an unhandled type produce
/// nothing and never end the stream; `msg` and `presence` messages are
/// forwarded; `admin_res` is surfaced with its action and data.
pub open spec fn stream_line_ok(line: Seq<char>, r: (SessionPhase, Vec<SessionOutput>)) -> bool {
    let t = trim_spec(line);
    if t.len() == 0 {
        r.0 is Streaming && r.1@.len() == 0
    } else {
        match json_doc(t) {
            Some(v) => match v {
                JsonVal::Obj(fs) => if server_msg_ok(fs@) {
                    let ty = opt_text_val(fs@, "type"@)->0;
                    if ty == "msg"@ || ty == "presence"@ {
                        &&& r.0 is Streaming
                        &&& r.1@.len() == 1
                        &&& r.1@[0] matches SessionOutput::Emit(NetEvent::Message(m))
                            && server_msg_matches(m, fs@)
                    } else if ty == "admin_res"@ {
                        &&& r.0 is Streaming
                        &&& r.1@.len() == 1
                        &&& r.1@[0] matches SessionOutput::Emit(
                            NetEvent::AdminResponse { action, data },
                        ) && action@ == (match opt_text_val(fs@, "action"@) {
                            Some(a) => a,
                            None => Seq::<char>::empty(),
                        }) && data@ == (match opt_text_val(fs@, "data"@) {
                            Some(d) => d,
                            None => Seq::<char>::empty(),
                        })
                    } else {
                        r.0 is Streaming && r.1@.len() == 0
                    }
                } else {
                    r.0 is Streaming && r.1@.len() == 0
                },
                _ => r.0 is Streaming && r.1@.len() == 0,
            },
            None => r.0 is Streaming && r.1@.len() == 0,
        }
    }
}

/// One step of the session machine.
///
/// The first three clauses are the termination discipline of the protocol:
/// a terminated session stays terminated and silent; a step emits
/// `Disconnected` exactly when it terminates the session, exactly once, and
/// as its last output. Closing the command channel while streaming is the
/// cancellation path: the session ends cleanly, with no error event.
pub fn session_step(phase: SessionPhase, params: &NetParams, input: SessionInput) -> (r: (
    SessionPhase,
    Vec<SessionOutput>,
))
    requires
        params.wf(),
    ensures
        phase is Terminated ==> r.0 is Terminated && r.1@.len() == 0,
        disconnect_count(r.1@) == if r.0 is Terminated && !(phase is Terminated) {
            1nat
        } else {
            0nat
        },
        r.0 is Terminated && !(phase is Terminated) ==> r.1@.len() >= 1 && is_disconnect(
            r.1@.last(),
        ),
        !(phase is Terminated) ==> (input matches SessionInput::Fault(e) ==> r.0 is Terminated
            && error_exit(r.1@, e@)),
        phase is Opening && input is TransportUp ==> r.0 is AwaitChallenge && r.1@.len() == 1
            && r.1@[0] matches SessionOutput::Emit(NetEvent::Connected),
        phase is Opening && !(input is TransportUp) && !(input matches SessionInput::Fault(_))
            ==> r.0 is Opening && r.1@.len() == 0,
        phase is AwaitChallenge ==> (input matches SessionInput::Line(line)
            ==> challenge_step_ok(params, line@, r)),
        phase is AwaitChallenge && input is Eof ==> r.0 is Terminated && error_exit(
            r.1@,
            msg_expected_challenge(),
        ),
        phase is AwaitChallenge && (input is TransportUp || input matches SessionInput::Command(_)
            || input is CommandsClosed) ==> r.0 is AwaitChallenge && r.1@.len() == 0,
        phase is AwaitAuthResult ==> (input matches SessionInput::Line(line)
            ==> auth_step_ok(params, line@, r)),
        phase is AwaitAuthResult && input is Eof ==> r.0 is Terminated && error_exit(
            r.1@,
            msg_expected_auth(),
        ),
        phase is AwaitAuthResult && (input is TransportUp || input matches SessionInput::Command(_)
            || input is CommandsClosed) ==> r.0 is AwaitAuthResult && r.1@.len() == 0,
        phase is Streaming ==> (input matches SessionInput::Line(line)
            ==> stream_line_ok(line@, r)),
        phase is Streaming ==> (input matches SessionInput::Command(NetCommand::SendMessage(text))
            ==> r.0 is Streaming && r.1@.len() == 1 && (r.1@[0] matches SessionOutput::Send(l)
            && l@ == client_msg_line("msg"@, text@))),
        phase is Streaming ==> (input matches SessionInput::Command(NetCommand::SendAdminCmd(action))
            ==> r.0 is Streaming && r.1@.len() == 1 && (r.1@[0] matches SessionOutput::Send(l)
            && l@ == admin_cmd_line(action@))),
        phase is Streaming && input is CommandsClosed ==> r.0 is Terminated && clean_exit(r.1@),
        phase is Streaming && input is Eof ==> r.0 is Terminated && clean_exit(r.1@),
        phase is Streaming && input is TransportUp ==> r.0 is Streaming && r.1@.len() == 0,
{
    let mut outs: Vec<SessionOutput> = Vec::new();
    match phase {
        SessionPhase::Terminated => (SessionPhase::Terminated, outs),
        _ => {
            match input {
                SessionInput::Fault(e) => terminate_with_error(e),
                SessionInput::TransportUp => {
                    match phase {
                        SessionPhase::Opening => {
                            outs.push(SessionOutput::Emit(NetEvent::Connected));
                            proof {
                                lemma_count_none(outs@);
                            }
                            (SessionPhase::AwaitChallenge, outs)
                        },
                        _ => {
                            proof {
                                lemma_count_none(outs@);
                            }
                            (phase, outs)
                        },
                    }
                },
                SessionInput::Line(line) => {
                    match phase {
                        SessionPhase::AwaitChallenge => challenge_step(params, &line),
                        SessionPhase::AwaitAuthResult => auth_step(params, &line),
                        SessionPhase::Streaming => stream_line_step(&line),
                        _ => {
                            proof {
                                lemma_count_none(outs@);
                            }
                            (phase, outs)
                        },
                    }
                },
                SessionInput::Command(cmd) => {
                    match phase {
                        SessionPhase::Streaming => {
                            match cmd {
                                NetCommand::SendMessage(text) => {
                                    let m = ClientMsg { msg_type: "msg".to_owned(), text };
                                    outs.push(SessionOutput::Send(encode_client_msg(&m)));
                                },
                                NetCommand::SendAdminCmd(action) => {
                                    outs.push(
                                        SessionOutput::Send(encode_admin_cmd(action.as_str())),
                                    );
                                },
                            }
                            proof {
                                lemma_count_none(outs@);
                            }
                            (SessionPhase::Streaming, outs)
                        },
                        _ => {
                            proof {
                                lemma_count_none(outs@);
                            }
                            (phase, outs)
                        },
                    }
                },
                SessionInput::CommandsClosed => {
                    match phase {
                        SessionPhase::Streaming => {
                            outs.push(SessionOutput::Emit(NetEvent::Disconnected));
                            proof {
                                lemma_count_one_disconnect(outs@);
                            }
                            (SessionPhase::Terminated, outs)
                        },
                        _ => {
                            proof {
                                lemma_count_none(outs@);
                            }
                            (phase, outs)
                        },
                    }
                },
                SessionInput::Eof => {
                    match phase {
                        SessionPhase::AwaitChallenge => {
                            terminate_with_error("Expected challenge from server".to_owned())
                        },
                        SessionPhase::AwaitAuthResult => {
                            terminate_with_error("Expected auth response".to_owned())
                        },
                        SessionPhase::Streaming => {
                            outs.push(SessionOutput::Emit(NetEvent::Disconnected));
                            proof {
                                lemma_count_one_disconnect(outs@);
                            }
                            (SessionPhase::Terminated, outs)
                        },
                        _ => {
                            proof {
                                lemma_count_none(outs@);
                            }
                            (phase, outs)
                        },
                    }
                },
            }
        },
    }
}

proof fn lemma_count_none(outs: Seq<SessionOutput>)
    requires
        forall|i: int| 0 <= i < outs.len() ==> !is_disconnect(outs[i]),
    ensures
        disconnect_count(outs) == 0nat,
    decreases outs.len(),
{
    reveal_with_fuel(Seq::filter, 2);
    if outs.len() > 0 {
        lemma_count_none(outs.drop_last());
    }
}

proof fn lemma_count_one_disconnect(outs: Seq<SessionOutput>)
    requires
        outs.len() >= 1,
        is_disconnect(outs.last()),
        forall|i: int| 0 <= i < outs.len() - 1 ==> !is_disconnect(outs[i]),
    ensures
        disconnect_count(outs) == 1nat,
{
    reveal_with_fuel(Seq::filter, 2);
    lemma_count_none(outs.drop_last());
}

/// Ends the session with the given error surfaced before the final
/// `Disconnected`.
fn terminate_with_error(message: String) -> (r: (SessionPhase, Vec<SessionOutput>))
    ensures
        r.0 is Terminated,
        error_exit(r.1@, message@),
        disconnect_count(r.1@) == 1nat,
{
    let mut outs: Vec<SessionOutput> = Vec::new();
    outs.push(SessionOutput::Emit(NetEvent::Error(message)));
    outs.push(SessionOutput::Emit(NetEvent::Disconnected));
    proof {
        lemma_count_one_disconnect(outs@);
    }
    (SessionPhase::Terminated, outs)
}

fn challenge_step(params: &NetParams, line: &str) -> (r: (SessionPhase, Vec<SessionOutput>))
    requires
        params.wf(),
    ensures
        challenge_step_ok(params, line@, r),
        disconnect_count(r.1@) == if r.0 is Terminated {
            1nat
        } else {
            0nat
        },
        r.0 is Terminated || r.0 is AwaitAuthResult,
        r.0 is Terminated ==> r.1@.len() >= 1 && is_disconnect(r.1@.last()),
{
    let trimmed = trim_line(line);
    let doc = match json_parse(trimmed.as_str()) {
        Some(d) => d,
        None => {
            return terminate_with_error("Expected challenge from server".to_owned());
        },
    };
    let ch = match decode_challenge(&doc) {
        Some(c) => c,
        None => {
            return terminate_with_error("Expected challenge from server".to_owned());
        },
    };
    if !str_eq(ch.msg_type.as_str(), "challenge") {
        let mut m = "Expected 'challenge', got '".to_owned();
        m.append(ch.msg_type.as_str());
        m.append("'");
        return terminate_with_error(m);
    }
    let mut outs: Vec<SessionOutput> = Vec::new();
    match &params.enroll_code {
        Some(code) => {
            let msg = EnrollMsg {
                msg_type: "enroll".to_owned(),
                username: params.username.clone(),
                pubkey: params.pubkey_b64.clone(),
                invite_code: code.clone(),
            };
            outs.push(SessionOutput::Send(encode_enroll(&msg)));
            proof {
                lemma_count_none(outs@);
            }
            (SessionPhase::AwaitAuthResult, outs)
        },
        None => {
            let id = match &params.identity {
                Some(id) => id,
                None => {
                    // Unreachable under the precondition; kept total.
                    return terminate_with_error("Invalid base64 nonce".to_owned());
                },
            };
            match sign_nonce(id, ch.nonce.as_str()) {
                Ok(sig) => {
                    let msg = AuthMsg {
                        msg_type: "auth".to_owned(),
                        pubkey: params.pubkey_b64.clone(),
                        username: params.username.clone(),
                        sig,
                    };
                    outs.push(SessionOutput::Send(encode_auth(&msg)));
                    proof {
                        lemma_count_none(outs@);
                    }
                    (SessionPhase::AwaitAuthResult, outs)
                },
                Err(e) => {
                    return terminate_with_error(e.message());
                },
            }
        },
    }
}

fn auth_step(params: &NetParams, line: &str) -> (r: (SessionPhase, Vec<SessionOutput>))
    ensures
        auth_step_ok(params, line@, r),
        disconnect_count(r.1@) == if r.0 is Terminated {
            1nat
        } else {
            0nat
        },
        r.0 is Terminated || r.0 is Streaming,
        r.0 is Terminated ==> r.1@.len() >= 1 && is_disconnect(r.1@.last()),
{
    let trimmed = trim_line(line);
    let doc = match json_parse(trimmed.as_str()) {
        Some(d) => d,
        None => {
            return terminate_with_error("Expected auth response".to_owned());
        },
    };
    let resp = match decode_auth_response(&doc) {
        Some(a) => a,
        None => {
            return terminate_with_error("Expected auth response".to_owned());
        },
    };
    let mut outs: Vec<SessionOutput> = Vec::new();
    if str_eq(resp.msg_type.as_str(), "auth_ok") {
        outs.push(
            SessionOutput::Emit(NetEvent::AuthOk { username: params.username.clone() }),
        );
        proof {
            lemma_count_none(outs@);
        }
        (SessionPhase::Streaming, outs)
    } else {
        let reason = match resp.reason {
            Some(x) => x,
            None => "auth_fail".to_owned(),
        };
        outs.push(SessionOutput::Emit(NetEvent::AuthFail { reason }));
        outs.push(SessionOutput::Emit(NetEvent::Disconnected));
        proof {
            lemma_count_one_disconnect(outs@);
        }
        (SessionPhase::Terminated, outs)
    }
}

fn stream_line_step(line: &str) -> (r: (SessionPhase, Vec<SessionOutput>))
    ensures
        stream_line_ok(line@, r),
        r.0 is Streaming,
        disconnect_count(r.1@) == 0nat,
{
    let trimmed = trim_line(line);
    let mut outs: Vec<SessionOutput> = Vec::new();
    if trimmed.as_str().is_empty() {
        proof {
            lemma_count_none(outs@);
        }
        return (SessionPhase::Streaming, outs);
    }
    let doc = match json_parse(trimmed.as_str()) {
        Some(d) => d,
        None => {
            proof {
                lemma_count_none(outs@);
            }
            return (SessionPhase::Streaming, outs);
        },
    };
    let msg = match decode_server_msg(&doc) {
        Some(m) => m,
        None => {
            proof {
                lemma_count_none(outs@);
            }
            return (SessionPhase::Streaming, outs);
        },
    };
    if str_eq(msg.msg_type.as_str(), "msg") || str_eq(msg.msg_type.as_str(), "presence") {
        outs.push(SessionOutput::Emit(NetEvent::Message(msg)));
    } else if str_eq(msg.msg_type.as_str(), "admin_res") {
        let action = match msg.action {
            Some(a) => a,
            None => String::new(),
        };
        let data = match msg.data {
            Some(d) => d,
            None => String::new(),
        };
        outs.push(SessionOutput::Emit(NetEvent::AdminResponse { action, data }));
    }
    proof {
        lemma_count_none(outs@);
    }
    (SessionPhase::Streaming, outs)
}


/// The total number of `Disconnected` events over a run's steps.
pub open spec fn total_disconnects(counts: Seq<nat>) -> nat
    decreases counts.len(),
{
    if counts.len() == 0 {
        0
    } else {
        counts[0] + total_disconnects(counts.drop_first())
    }
}

/// One step of a run never leaves `Terminated`.
pub open spec fn stays_terminated(phases: Seq<SessionPhase>, i: int) -> bool {
    phases[i] is Terminated ==> phases[i + 1] is Terminated
}

proof fn lemma_total_zero(counts: Seq<nat>)
    requires
        forall|i: int| 0 <= i < counts.len() ==> counts[i] == 0nat,
    ensures
        total_disconnects(counts) == 0,
    decreases counts.len(),
{
    if counts.len() > 0 {
        lemma_total_zero(counts.drop_first());
    }
}

/// Law: every session ends with exactly one `Disconnected`, whatever its
/// course. A run is any chain of steps that starts live and ends
/// terminated; `phases` are the phases seen (one more than the steps),
/// `counts` the `Disconnected` events each step emitted. The two `forall`
/// premises are exactly what the contract of `session_step` gives for each
/// step, so the conclusion holds of every real session.
pub proof fn lemma_one_disconnect_per_session(phases: Seq<SessionPhase>, counts: Seq<nat>)
    requires
        phases.len() == counts.len() + 1,
        !(phases[0] is Terminated),
        phases.last() is Terminated,
        forall|i: int| 0 <= i < counts.len() ==> counts[i] == (
        if phases[i + 1] is Terminated && !(phases[i] is Terminated) {
            1nat
        } else {
            0nat
        }),
        forall|i: int| 0 <= i < counts.len() ==> #[trigger] stays_terminated(phases, i),
    ensures
        total_disconnects(counts) == 1,
    decreases counts.len(),
{
    if counts.len() == 0 {
        assert(phases.last() == phases[0]);
    } else {
        if phases[1] is Terminated {
            assert(counts[0] == 1nat);
            let rest = counts.drop_first();
            assert forall|i: int| 0 <= i < rest.len() implies rest[i] == 0nat by {
                assert(stays_terminated(phases, i + 1));
                lemma_terminated_stays(phases, i + 1);
                assert(phases[i + 1] is Terminated);
                assert(rest[i] == counts[i + 1]);
            }
            lemma_total_zero(rest);
        } else {
            assert(counts[0] == 0nat);
            let p2 = phases.drop_first();
            let c2 = counts.drop_first();
            assert(p2.last() == phases.last());
            assert forall|i: int| 0 <= i < c2.len() implies c2[i] == (
            if p2[i + 1] is Terminated && !(p2[i] is Terminated) {
                1nat
            } else {
                0nat
            }) by {
                assert(c2[i] == counts[i + 1]);
                assert(p2[i] == phases[i + 1] && p2[i + 1] == phases[i + 2]);
            }
            assert forall|i: int| 0 <= i < c2.len() implies #[trigger] stays_terminated(
                p2,
                i,
            ) by {
                assert(stays_terminated(phases, i + 1));
                assert(p2[i] == phases[i + 1] && p2[i + 1] == phases[i + 2]);
            }
            lemma_one_disconnect_per_session(p2, c2);
        }
    }
}

proof fn lemma_terminated_stays(phases: Seq<SessionPhase>, j: int)
    requires
        forall|i: int| 0 <= i < phases.len() - 1 ==> #[trigger] stays_terminated(phases, i),
        1 <= j < phases.len(),
        phases[1] is Terminated,
    ensures
        phases[j] is Terminated,
    decreases j,
{
    if j > 1 {
        lemma_terminated_stays(phases, j - 1);
        assert(stays_terminated(phases, j - 1));
    }
}

} // verus!
