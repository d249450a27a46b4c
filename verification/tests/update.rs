use base64::Engine;
use ttychat::clock::TimestampValue;
use ttychat::config::{Config, ServerProfile};
use ttychat::session::NetEvent;
use ttychat::state::{App, ChatMessage, Screen};
use ttychat::update::{classify_input, InputAction, StartOutcome};
use ttychat::wire::ServerMsg;

fn fresh_app() -> App {
    App::new(Config::empty())
}

fn plain_msg(from: &str, text: &str) -> ChatMessage {
    ChatMessage {
        from: from.to_string(),
        text: text.to_string(),
        timestamp: "12:00".to_string(),
        is_system: false,
        is_admin: false,
    }
}

fn server_msg(ty: &str) -> ServerMsg {
    ServerMsg {
        msg_type: ty.to_string(),
        from: None,
        text: None,
        timestamp: TimestampValue::Absent,
        users_count: None,
        user_names: None,
        action: None,
        data: None,
    }
}

#[test]
fn new_app_prefills_the_form_from_the_record() {
    let cfg = Config {
        profiles: vec![ServerProfile {
            server: "srv:7000".to_string(),
            username: "ann".to_string(),
        }],
        last_server: Some("srv:7000".to_string()),
        last_username: Some("ann".to_string()),
    };
    let app = App::new(cfg);
    assert!(matches!(app.screen, Screen::Splash));
    assert_eq!(app.connect_form.server, "srv:7000");
    assert_eq!(app.connect_form.username, "ann");
    assert_eq!(app.profiles.len(), 1);
}

#[test]
fn auth_ok_lands_in_chat_and_updates_the_record() {
    let mut app = fresh_app();
    app.chat.server = "srv:7000".to_string();
    let fx = app.handle_net_event(NetEvent::AuthOk { username: "ann".to_string() });
    assert!(fx.save_config);
    assert!(!fx.drop_command_channel);
    assert!(matches!(app.screen, Screen::Chat));
    assert!(app.status_msg.is_none());
    assert_eq!(app.chat.username, "ann");
    assert_eq!(app.config.last_server.as_deref(), Some("srv:7000"));
    assert_eq!(app.config.last_username.as_deref(), Some("ann"));
    assert_eq!(app.config.profiles.len(), 1);
    assert_eq!(app.config.profiles[0].server, "srv:7000");
    assert_eq!(app.profiles.len(), 1);
}

#[test]
fn auth_fail_routes_to_enrollment() {
    let mut app = fresh_app();
    let fx = app.handle_net_event(NetEvent::AuthFail { reason: "unknown key".to_string() });
    assert!(!fx.save_config);
    assert!(matches!(app.screen, Screen::Enroll));
    assert_eq!(
        app.status_msg.as_deref(),
        Some("Auth failed: unknown key. Enter invite code to enroll.")
    );
}

#[test]
fn error_event_shows_the_error_screen() {
    let mut app = fresh_app();
    app.handle_net_event(NetEvent::Error("TLS handshake failed".to_string()));
    assert!(matches!(app.screen, Screen::Error(ref m) if m == "TLS handshake failed"));
}

#[test]
fn disconnect_in_chat_adds_a_system_line_and_drops_the_channel() {
    let mut app = fresh_app();
    app.screen = Screen::Chat;
    let fx = app.handle_net_event(NetEvent::Disconnected);
    assert!(fx.drop_command_channel);
    assert_eq!(app.chat.messages.len(), 1);
    assert!(app.chat.messages[0].is_system);
    assert_eq!(app.chat.messages[0].text, "Disconnected from server");

    let mut idle = fresh_app();
    let fx = idle.handle_net_event(NetEvent::Disconnected);
    assert!(!fx.drop_command_channel);
    assert!(idle.chat.messages.is_empty());
}

#[test]
fn admin_response_is_recorded_and_shown() {
    let mut app = fresh_app();
    let fx = app.handle_net_event(NetEvent::AdminResponse {
        action: "invite".to_string(),
        data: "XYZ".to_string(),
    });
    assert!(fx.notification.is_none());
    assert_eq!(app.chat.admin_response.as_deref(), Some("[ADMIN >> invite] XYZ"));
    assert_eq!(app.chat.messages.len(), 1);
    let m = &app.chat.messages[0];
    assert_eq!(m.from, "ADMIN");
    assert_eq!(m.text, "[invite] XYZ");
    assert!(m.is_system && m.is_admin);
}

#[test]
fn notifications_fire_only_when_unfocused_unmuted_and_foreign() {
    let mut app = fresh_app();
    app.chat.username = "me".to_string();
    app.terminal_focused = false;

    let n = app.push_message(plain_msg("bob", "hi"));
    assert!(n.is_some());
    assert_eq!(app.unread_count, 1);

    // Own messages never notify.
    let n = app.push_message(plain_msg("me", "self"));
    assert!(n.is_none());
    assert_eq!(app.unread_count, 1);

    // Muted suppresses.
    app.notifications_muted = true;
    let n = app.push_message(plain_msg("bob", "again"));
    assert!(n.is_none());
    app.notifications_muted = false;

    // Focused suppresses.
    app.terminal_focused = true;
    let n = app.push_message(plain_msg("bob", "more"));
    assert!(n.is_none());
    assert_eq!(app.chat.messages.len(), 4);
}

#[test]
fn focus_gained_clears_unread() {
    let mut app = fresh_app();
    app.terminal_focused = false;
    app.push_message(plain_msg("bob", "hi"));
    assert_eq!(app.unread_count, 1);
    let clear = app.on_focus_gained();
    assert!(clear);
    assert_eq!(app.unread_count, 0);
    assert!(app.terminal_focused);
    let clear = app.on_focus_gained();
    assert!(!clear);
}

#[test]
fn presence_messages_update_counts_without_a_transcript_line() {
    let mut app = fresh_app();
    let mut msg = server_msg("presence");
    msg.users_count = Some(3);
    msg.user_names = Some(vec!["a".to_string(), "b".to_string()]);
    let n = app.handle_server_msg(msg);
    assert!(n.is_none());
    assert_eq!(app.chat.user_count, 3);
    assert_eq!(app.chat.online_users, vec!["a".to_string(), "b".to_string()]);
    assert!(app.chat.messages.is_empty());
}

#[test]
fn chat_messages_default_their_origin_and_text() {
    let mut app = fresh_app();
    let n = app.handle_server_msg(server_msg("msg"));
    assert!(n.is_none());
    assert_eq!(app.chat.messages.len(), 1);
    let m = &app.chat.messages[0];
    assert_eq!(m.from, "system");
    assert_eq!(m.text, "");
    assert_eq!(m.timestamp.len(), 5);
}

#[test]
fn splash_gives_way_to_connect_after_thirty_ticks() {
    let mut app = fresh_app();
    for _ in 0..29 {
        app.on_tick();
        assert!(matches!(app.screen, Screen::Splash));
    }
    app.on_tick();
    assert!(matches!(app.screen, Screen::Connect));
    assert!(app.splash_done);
}

#[test]
fn start_connection_needs_a_username() {
    let mut app = fresh_app();
    app.connect_form.server = "srv".to_string();
    let r = app.start_connection(None, None);
    assert!(matches!(r, StartOutcome::Idle));
    assert!(matches!(app.screen, Screen::Splash));
}

#[test]
fn start_connection_generates_and_pauses_at_key_info() {
    let mut app = fresh_app();
    app.connect_form.server = "srv".to_string();
    app.connect_form.username = "ann".to_string();
    let r = app.start_connection(None, None);
    let StartOutcome::ShowKeyInfo { write_seed } = r else {
        panic!("expected the key-info pause");
    };
    let seed = write_seed.expect("a fresh seed must be persisted");
    assert_eq!(seed.len(), 32);
    assert!(matches!(app.screen, Screen::KeyInfo));
    assert!(app.is_new_key);
    assert!(app.pubkey_b64.is_some());
}

#[test]
fn start_connection_with_stored_key_launches() {
    let mut app = fresh_app();
    app.connect_form.server = "srv".to_string();
    app.connect_form.username = "ann".to_string();
    let r = app.start_connection(Some(vec![8u8; 32]), None);
    let StartOutcome::Connect { write_seed, params } = r else {
        panic!("expected a launch");
    };
    assert!(write_seed.is_none());
    assert_eq!(params.server, "srv:7000");
    assert_eq!(params.username, "ann");
    assert!(params.identity.is_some());
    assert!(params.enroll_code.is_none());
    assert!(matches!(app.screen, Screen::Auth));
    assert_eq!(app.status_msg.as_deref(), Some("Connecting..."));
    assert_eq!(app.chat.server, "srv:7000");
}

#[test]
fn start_connection_keeps_an_explicit_port() {
    let mut app = fresh_app();
    app.connect_form.server = "srv:9999".to_string();
    app.connect_form.username = "ann".to_string();
    let r = app.start_connection(Some(vec![8u8; 32]), None);
    let StartOutcome::Connect { params, .. } = r else {
        panic!("expected a launch");
    };
    assert_eq!(params.server, "srv:9999");
}

#[test]
fn start_connection_imports_a_manual_key() {
    let mut app = fresh_app();
    app.connect_form.server = "srv".to_string();
    app.connect_form.username = "ann".to_string();
    let seed = [6u8; 32];
    app.connect_form.manual_key =
        base64::engine::general_purpose::STANDARD.encode(seed);
    let r = app.start_connection(None, None);
    let StartOutcome::Connect { write_seed, params } = r else {
        panic!("expected a launch");
    };
    assert_eq!(write_seed, Some(seed.to_vec()));
    let expected =
        base64::engine::general_purpose::STANDARD.encode(
            ed25519_dalek::SigningKey::from_bytes(&seed).verifying_key().as_bytes(),
        );
    assert_eq!(params.pubkey_b64, expected);
}

#[test]
fn start_connection_rejects_bad_manual_keys() {
    let mut app = fresh_app();
    app.connect_form.username = "ann".to_string();
    app.connect_form.manual_key = "!!!".to_string();
    let r = app.start_connection(None, None);
    assert!(matches!(r, StartOutcome::Rejected));
    assert!(
        matches!(app.screen, Screen::Error(ref m) if m == "Invalid manual key format (expected Base64)")
    );

    let mut app = fresh_app();
    app.connect_form.username = "ann".to_string();
    app.connect_form.manual_key =
        base64::engine::general_purpose::STANDARD.encode([1u8; 8]);
    let r = app.start_connection(None, None);
    assert!(matches!(r, StartOutcome::Rejected));
    assert!(
        matches!(app.screen, Screen::Error(ref m) if m == "Invalid manual key length (expected 32 bytes)")
    );
}

#[test]
fn start_connection_reports_a_corrupt_key_file() {
    let mut app = fresh_app();
    app.connect_form.username = "ann".to_string();
    let r = app.start_connection(Some(vec![1u8; 5]), None);
    assert!(matches!(r, StartOutcome::Rejected));
    assert!(
        matches!(app.screen, Screen::Error(ref m) if m == "Key error: Key file is corrupt (expected 32 bytes)")
    );
}

#[test]
fn enrollment_skips_the_key_info_pause() {
    let mut app = fresh_app();
    app.connect_form.server = "srv".to_string();
    app.connect_form.username = "ann".to_string();
    let r = app.start_connection(None, Some("CODE".to_string()));
    let StartOutcome::Connect { write_seed, params } = r else {
        panic!("expected a launch");
    };
    assert!(write_seed.is_some());
    assert_eq!(params.enroll_code.as_deref(), Some("CODE"));
}

#[test]
fn reset_identity_forgets_the_cached_key() {
    let mut app = fresh_app();
    app.connect_form.username = "  ann  ".to_string();
    let target = app.reset_identity_target();
    assert_eq!(target.as_deref(), Some("ann"));
    app.reset_identity();
    assert!(app.identity.is_none());
    assert!(app.pubkey_b64.is_none());
    assert_eq!(app.status_msg.as_deref(), Some("Deleted identity for ann"));

    let mut blank = fresh_app();
    assert!(blank.reset_identity_target().is_none());
}

#[test]
fn scrolling_saturates_at_both_ends() {
    let mut app = fresh_app();
    app.chat.scroll_down(5);
    assert_eq!(app.chat.scroll_offset, 0);
    app.chat.scroll_up(3);
    assert_eq!(app.chat.scroll_offset, 3);
    app.chat.scroll_down(1);
    assert_eq!(app.chat.scroll_offset, 2);
    app.chat.scroll_to_top();
    assert_eq!(app.chat.scroll_offset, usize::MAX);
    app.chat.scroll_up(1);
    assert_eq!(app.chat.scroll_offset, usize::MAX);
    app.chat.scroll_to_bottom();
    assert_eq!(app.chat.scroll_offset, 0);
}

#[test]
fn input_lines_classify_into_commands() {
    assert!(matches!(classify_input("/mute"), InputAction::Mute));
    assert!(matches!(classify_input("/unmute"), InputAction::Unmute));
    assert!(matches!(classify_input("/admin invite"), InputAction::Admin(a) if a == "invite"));
    assert!(matches!(classify_input("/admin   "), InputAction::Nothing));
    assert!(matches!(classify_input("hello"), InputAction::Say(t) if t == "hello"));
    // Unknown slash-words go out as chat text, like any other line.
    assert!(matches!(classify_input("/whois bob"), InputAction::Say(t) if t == "/whois bob"));
    assert!(matches!(classify_input("/admins"), InputAction::Say(t) if t == "/admins"));
}
