use ttychat::clock::TimestampValue;
use ttychat::json::json_parse;
use ttychat::codec::{decode_auth_response, decode_challenge, decode_server_msg};

fn decode(line: &str) -> Option<ttychat::wire::ServerMsg> {
    decode_server_msg(&json_parse(line)?)
}

#[test]
fn non_json_line_is_dropped() {
    assert!(json_parse("this is not json").is_none());
    assert!(json_parse("").is_none());
}

#[test]
fn unknown_extra_fields_are_tolerated_and_users_count_exposed() {
    let m = decode(r#"{"type":"presence","users":5,"wat":true,"extra":{"deep":[1,2]}}"#)
        .expect("line should decode");
    assert_eq!(m.msg_type, "presence");
    assert_eq!(m.users_count, Some(5));
    assert!(m.user_names.is_none());
}

#[test]
fn users_as_array_exposes_the_name_list() {
    let m = decode(r#"{"type":"presence","users":["ann","bob"]}"#).unwrap();
    assert_eq!(m.users_count, None);
    assert_eq!(m.user_names, Some(vec!["ann".to_string(), "bob".to_string()]));
}

#[test]
fn users_array_keeps_only_strings() {
    let m = decode(r#"{"type":"presence","users":["ann",3,null,"bob"]}"#).unwrap();
    assert_eq!(m.user_names, Some(vec!["ann".to_string(), "bob".to_string()]));
}

#[test]
fn aliased_presence_fields_follow_precedence() {
    let m = decode(r#"{"type":"presence","users":["u"],"online":["o"],"names":["n"]}"#).unwrap();
    assert_eq!(m.user_names, Some(vec!["n".to_string()]));

    let m = decode(r#"{"type":"presence","names":["n"],"user_list":["ul"],"list":["l"]}"#)
        .unwrap();
    assert_eq!(m.user_names, Some(vec!["ul".to_string()]));
}

#[test]
fn wrongly_typed_fields_drop_the_whole_line() {
    assert!(decode(r#"{"type":"msg","from":5}"#).is_none());
    assert!(decode(r#"{"type":"msg","online":["a",1]}"#).is_none());
    assert!(decode(r#"{"type":7}"#).is_none());
    assert!(decode(r#"{"notype":"msg"}"#).is_none());
    assert!(decode(r#"[1,2,3]"#).is_none());
}

#[test]
fn timestamp_aliases_are_recognized() {
    let m = decode(r#"{"type":"msg","time":1700000000}"#).unwrap();
    assert!(matches!(m.timestamp, TimestampValue::Epoch(1700000000)));

    let m = decode(r#"{"type":"msg","created_at":"2023-11-14T22:13:20Z"}"#).unwrap();
    assert!(matches!(m.timestamp, TimestampValue::Text(ref s) if s == "2023-11-14T22:13:20Z"));

    let m = decode(r#"{"type":"msg"}"#).unwrap();
    assert!(matches!(m.timestamp, TimestampValue::Absent));
}

#[test]
fn two_timestamp_aliases_are_ambiguous() {
    assert!(decode(r#"{"type":"msg","time":1,"ts":2}"#).is_none());
}

#[test]
fn message_fields_come_through() {
    let m = decode(r#"{"type":"msg","from":"ann","text":"hi there","action":"a","data":"d"}"#)
        .unwrap();
    assert_eq!(m.from.as_deref(), Some("ann"));
    assert_eq!(m.text.as_deref(), Some("hi there"));
    assert_eq!(m.action.as_deref(), Some("a"));
    assert_eq!(m.data.as_deref(), Some("d"));
}

#[test]
fn challenge_decodes_and_requires_its_fields() {
    let c = decode_challenge(&json_parse(r#"{"type":"challenge","nonce":"AAECAw=="}"#).unwrap())
        .unwrap();
    assert_eq!(c.msg_type, "challenge");
    assert_eq!(c.nonce, "AAECAw==");

    assert!(decode_challenge(&json_parse(r#"{"type":"challenge"}"#).unwrap()).is_none());
    assert!(decode_challenge(&json_parse(r#"{"type":"challenge","nonce":1}"#).unwrap()).is_none());
}

#[test]
fn auth_response_reads_type_and_reason() {
    let a = decode_auth_response(&json_parse(r#"{"type":"auth_ok"}"#).unwrap()).unwrap();
    assert_eq!(a.msg_type, "auth_ok");
    assert!(a.reason.is_none());

    let a = decode_auth_response(&json_parse(r#"{"type":"nope","reason":"bad sig"}"#).unwrap())
        .unwrap();
    assert_eq!(a.msg_type, "nope");
    assert_eq!(a.reason.as_deref(), Some("bad sig"));

    assert!(decode_auth_response(&json_parse(r#"{"type":"x","reason":9}"#).unwrap()).is_none());
}
