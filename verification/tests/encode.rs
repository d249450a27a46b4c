use ttychat::wire::{
    encode_admin_cmd, encode_auth, encode_client_msg, encode_enroll, AuthMsg, ClientMsg, EnrollMsg,
};

#[test]
fn auth_line_is_canonical() {
    let m = AuthMsg {
        msg_type: "auth".to_string(),
        pubkey: "PK==".to_string(),
        username: "ann".to_string(),
        sig: "SIG==".to_string(),
    };
    assert_eq!(
        encode_auth(&m),
        r#"{"type":"auth","pubkey":"PK==","username":"ann","sig":"SIG=="}"#
    );
}

#[test]
fn enroll_line_is_canonical() {
    let m = EnrollMsg {
        msg_type: "enroll".to_string(),
        username: "bob".to_string(),
        pubkey: "PK".to_string(),
        invite_code: "XYZ".to_string(),
    };
    assert_eq!(
        encode_enroll(&m),
        r#"{"type":"enroll","username":"bob","pubkey":"PK","invite_code":"XYZ"}"#
    );
}

#[test]
fn client_msg_and_admin_cmd_lines() {
    let m = ClientMsg { msg_type: "msg".to_string(), text: "hello".to_string() };
    assert_eq!(encode_client_msg(&m), r#"{"type":"msg","text":"hello"}"#);
    assert_eq!(
        encode_admin_cmd("invite"),
        r#"{"type":"admin_cmd","action":"invite"}"#
    );
}

#[test]
fn text_is_escaped_like_json() {
    let m = ClientMsg {
        msg_type: "msg".to_string(),
        text: "say \"hi\"\\ and\nnew\tline \u{1}".to_string(),
    };
    let line = encode_client_msg(&m);
    assert_eq!(
        line,
        "{\"type\":\"msg\",\"text\":\"say \\\"hi\\\"\\\\ and\\nnew\\tline \\u0001\"}"
    );
    // The line must parse back to the same text.
    let v: serde_json::Value = serde_json::from_str(&line).unwrap();
    assert_eq!(v["text"].as_str().unwrap(), "say \"hi\"\\ and\nnew\tline \u{1}");
}

#[test]
fn unicode_text_passes_through_unescaped() {
    let m = ClientMsg { msg_type: "msg".to_string(), text: "héllo ✓".to_string() };
    let line = encode_client_msg(&m);
    assert_eq!(line, "{\"type\":\"msg\",\"text\":\"héllo ✓\"}");
    let v: serde_json::Value = serde_json::from_str(&line).unwrap();
    assert_eq!(v["text"].as_str().unwrap(), "héllo ✓");
}
