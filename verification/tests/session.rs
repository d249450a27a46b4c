use base64::Engine;
use ttychat::identity::load_or_generate;
use ttychat::session::{
    session_step, NetCommand, NetEvent, NetParams, SessionInput, SessionOutput, SessionPhase,
};

fn b64(bytes: &[u8]) -> String {
    base64::engine::general_purpose::STANDARD.encode(bytes)
}

fn params() -> NetParams {
    let (id, _) = load_or_generate(Some(vec![5u8; 32])).unwrap();
    let pubkey = ttychat::identity::pubkey_b64(&id);
    NetParams {
        server: "example.org:7000".to_string(),
        username: "ann".to_string(),
        pubkey_b64: pubkey,
        identity: Some(id),
        enroll_code: None,
        insecure: false,
    }
}

fn authenticated() -> SessionPhase {
    let p = params();
    let (phase, _) = session_step(SessionPhase::Opening, &p, SessionInput::TransportUp);
    let challenge = format!(r#"{{"type":"challenge","nonce":"{}"}}"#, b64(b"srv-nonce"));
    let (phase, _) = session_step(phase, &p, SessionInput::Line(challenge));
    let (phase, _) =
        session_step(phase, &p, SessionInput::Line(r#"{"type":"auth_ok"}"#.to_string()));
    assert!(matches!(phase, SessionPhase::Streaming));
    phase
}

#[test]
fn handshake_emits_connected_then_auth_ok() {
    let p = params();
    let (phase, outs) = session_step(SessionPhase::Opening, &p, SessionInput::TransportUp);
    assert!(matches!(phase, SessionPhase::AwaitChallenge));
    assert_eq!(outs.len(), 1);
    assert!(matches!(outs[0], SessionOutput::Emit(NetEvent::Connected)));

    let challenge = format!(r#"{{"type":"challenge","nonce":"{}"}}"#, b64(b"srv-nonce"));
    let (phase, outs) = session_step(phase, &p, SessionInput::Line(challenge));
    assert!(matches!(phase, SessionPhase::AwaitAuthResult));
    assert_eq!(outs.len(), 1);
    let line = match &outs[0] {
        SessionOutput::Send(l) => l.clone(),
        other => panic!("expected a credential line, got {other:?}"),
    };
    let v: serde_json::Value = serde_json::from_str(&line).unwrap();
    assert_eq!(v["type"], "auth");
    assert_eq!(v["username"], "ann");
    // The signature must verify against the advertised public key.
    let pk_raw = base64::engine::general_purpose::STANDARD
        .decode(v["pubkey"].as_str().unwrap())
        .unwrap();
    let vk =
        ed25519_dalek::VerifyingKey::from_bytes(&pk_raw.try_into().unwrap()).unwrap();
    let sig_raw = base64::engine::general_purpose::STANDARD
        .decode(v["sig"].as_str().unwrap())
        .unwrap();
    let sig = ed25519_dalek::Signature::from_bytes(&sig_raw.try_into().unwrap());
    assert!(vk.verify_strict(b"srv-nonce", &sig).is_ok());

    let (phase, outs) =
        session_step(phase, &p, SessionInput::Line(r#"{"type":"auth_ok"}"#.to_string()));
    assert!(matches!(phase, SessionPhase::Streaming));
    assert_eq!(outs.len(), 1);
    assert!(
        matches!(&outs[0], SessionOutput::Emit(NetEvent::AuthOk { username }) if username == "ann")
    );
}

#[test]
fn auth_failure_is_clean_not_an_error() {
    let p = params();
    let (phase, _) = session_step(SessionPhase::Opening, &p, SessionInput::TransportUp);
    let challenge = format!(r#"{{"type":"challenge","nonce":"{}"}}"#, b64(b"n"));
    let (phase, _) = session_step(phase, &p, SessionInput::Line(challenge));
    let (phase, outs) = session_step(
        phase,
        &p,
        SessionInput::Line(r#"{"type":"nope","reason":"bad sig"}"#.to_string()),
    );
    assert!(matches!(phase, SessionPhase::Terminated));
    assert_eq!(outs.len(), 2);
    assert!(
        matches!(&outs[0], SessionOutput::Emit(NetEvent::AuthFail { reason }) if reason == "bad sig")
    );
    assert!(matches!(outs[1], SessionOutput::Emit(NetEvent::Disconnected)));
}

#[test]
fn auth_failure_reason_defaults() {
    let p = params();
    let (phase, _) = session_step(SessionPhase::Opening, &p, SessionInput::TransportUp);
    let challenge = format!(r#"{{"type":"challenge","nonce":"{}"}}"#, b64(b"n"));
    let (phase, _) = session_step(phase, &p, SessionInput::Line(challenge));
    let (_, outs) =
        session_step(phase, &p, SessionInput::Line(r#"{"type":"denied"}"#.to_string()));
    assert!(
        matches!(&outs[0], SessionOutput::Emit(NetEvent::AuthFail { reason }) if reason == "auth_fail")
    );
}

#[test]
fn enrollment_sends_the_invite_code() {
    let mut p = params();
    p.enroll_code = Some("WELCOME1".to_string());
    let (phase, _) = session_step(SessionPhase::Opening, &p, SessionInput::TransportUp);
    let challenge = format!(r#"{{"type":"challenge","nonce":"{}"}}"#, b64(b"n"));
    let (phase, outs) = session_step(phase, &p, SessionInput::Line(challenge));
    assert!(matches!(phase, SessionPhase::AwaitAuthResult));
    let line = match &outs[0] {
        SessionOutput::Send(l) => l.clone(),
        other => panic!("expected an enroll line, got {other:?}"),
    };
    let v: serde_json::Value = serde_json::from_str(&line).unwrap();
    assert_eq!(v["type"], "enroll");
    assert_eq!(v["username"], "ann");
    assert_eq!(v["invite_code"], "WELCOME1");
}

#[test]
fn wrong_handshake_message_is_a_protocol_error() {
    let p = params();
    let (phase, _) = session_step(SessionPhase::Opening, &p, SessionInput::TransportUp);
    let (phase, outs) = session_step(
        phase,
        &p,
        SessionInput::Line(r#"{"type":"hello","nonce":"bm9uY2U="}"#.to_string()),
    );
    assert!(matches!(phase, SessionPhase::Terminated));
    assert_eq!(outs.len(), 2);
    assert!(
        matches!(&outs[0], SessionOutput::Emit(NetEvent::Error(m)) if m == "Expected 'challenge', got 'hello'")
    );
    assert!(matches!(outs[1], SessionOutput::Emit(NetEvent::Disconnected)));
}

#[test]
fn undecodable_challenge_is_a_protocol_error() {
    let p = params();
    let (phase, _) = session_step(SessionPhase::Opening, &p, SessionInput::TransportUp);
    let (phase, outs) = session_step(phase, &p, SessionInput::Line("garbage".to_string()));
    assert!(matches!(phase, SessionPhase::Terminated));
    assert!(
        matches!(&outs[0], SessionOutput::Emit(NetEvent::Error(m)) if m == "Expected challenge from server")
    );

    // A challenge missing its nonce is a shape failure, not a type mismatch.
    let (phase, _) = session_step(SessionPhase::Opening, &p, SessionInput::TransportUp);
    let (phase, outs) =
        session_step(phase, &p, SessionInput::Line(r#"{"type":"hello"}"#.to_string()));
    assert!(matches!(phase, SessionPhase::Terminated));
    assert!(
        matches!(&outs[0], SessionOutput::Emit(NetEvent::Error(m)) if m == "Expected challenge from server")
    );
}

#[test]
fn admin_res_emits_exactly_one_admin_response() {
    let p = params();
    let phase = authenticated();
    let (phase, outs) = session_step(
        phase,
        &p,
        SessionInput::Line(
            r#"{"type":"admin_res","action":"invite","data":"XYZ"}"#.to_string(),
        ),
    );
    assert!(matches!(phase, SessionPhase::Streaming));
    assert_eq!(outs.len(), 1);
    assert!(matches!(
        &outs[0],
        SessionOutput::Emit(NetEvent::AdminResponse { action, data })
            if action == "invite" && data == "XYZ"
    ));
}

#[test]
fn unknown_types_and_junk_lines_produce_no_event() {
    let p = params();
    let phase = authenticated();
    let (phase, outs) =
        session_step(phase, &p, SessionInput::Line(r#"{"type":"ping"}"#.to_string()));
    assert!(matches!(phase, SessionPhase::Streaming));
    assert!(outs.is_empty());

    let (phase, outs) = session_step(phase, &p, SessionInput::Line("%%% junk".to_string()));
    assert!(matches!(phase, SessionPhase::Streaming));
    assert!(outs.is_empty());

    let (phase, outs) = session_step(phase, &p, SessionInput::Line("   ".to_string()));
    assert!(matches!(phase, SessionPhase::Streaming));
    assert!(outs.is_empty());
}

#[test]
fn chat_and_presence_messages_are_forwarded() {
    let p = params();
    let phase = authenticated();
    let (_, outs) = session_step(
        phase,
        &p,
        SessionInput::Line(r#"{"type":"msg","from":"bob","text":"hi"}"#.to_string()),
    );
    assert_eq!(outs.len(), 1);
    assert!(matches!(
        &outs[0],
        SessionOutput::Emit(NetEvent::Message(m))
            if m.from.as_deref() == Some("bob") && m.text.as_deref() == Some("hi")
    ));
}

#[test]
fn closing_the_command_channel_disconnects_cleanly() {
    let p = params();
    let phase = authenticated();
    let (phase, outs) = session_step(phase, &p, SessionInput::CommandsClosed);
    assert!(matches!(phase, SessionPhase::Terminated));
    assert_eq!(outs.len(), 1);
    assert!(matches!(outs[0], SessionOutput::Emit(NetEvent::Disconnected)));

    // A terminated session stays silent.
    let (phase, outs) = session_step(phase, &p, SessionInput::Eof);
    assert!(matches!(phase, SessionPhase::Terminated));
    assert!(outs.is_empty());
}

#[test]
fn server_eof_disconnects_cleanly() {
    let p = params();
    let phase = authenticated();
    let (phase, outs) = session_step(phase, &p, SessionInput::Eof);
    assert!(matches!(phase, SessionPhase::Terminated));
    assert_eq!(outs.len(), 1);
    assert!(matches!(outs[0], SessionOutput::Emit(NetEvent::Disconnected)));
}

#[test]
fn transport_faults_surface_an_error_then_disconnect() {
    let p = params();
    let (phase, outs) = session_step(
        SessionPhase::Opening,
        &p,
        SessionInput::Fault("Cannot connect to 'example.org:7000': refused".to_string()),
    );
    assert!(matches!(phase, SessionPhase::Terminated));
    assert_eq!(outs.len(), 2);
    assert!(
        matches!(&outs[0], SessionOutput::Emit(NetEvent::Error(m)) if m.contains("refused"))
    );
    assert!(matches!(outs[1], SessionOutput::Emit(NetEvent::Disconnected)));
}

#[test]
fn outbound_commands_become_wire_lines() {
    let p = params();
    let phase = authenticated();
    let (phase, outs) = session_step(
        phase,
        &p,
        SessionInput::Command(NetCommand::SendMessage("hello \"world\"".to_string())),
    );
    assert!(matches!(phase, SessionPhase::Streaming));
    let line = match &outs[0] {
        SessionOutput::Send(l) => l.clone(),
        other => panic!("expected a line, got {other:?}"),
    };
    let v: serde_json::Value = serde_json::from_str(&line).unwrap();
    assert_eq!(v["type"], "msg");
    assert_eq!(v["text"], "hello \"world\"");

    let (_, outs) = session_step(
        phase,
        &p,
        SessionInput::Command(NetCommand::SendAdminCmd("invite".to_string())),
    );
    let line = match &outs[0] {
        SessionOutput::Send(l) => l.clone(),
        other => panic!("expected a line, got {other:?}"),
    };
    assert_eq!(line, r#"{"type":"admin_cmd","action":"invite"}"#);
}
