use ttychat::config::{key_path, remember_profile, Config, ServerProfile};

fn profile(server: &str, username: &str) -> ServerProfile {
    ServerProfile { server: server.to_string(), username: username.to_string() }
}

fn pairs(v: &[ServerProfile]) -> Vec<(String, String)> {
    v.iter().map(|p| (p.server.clone(), p.username.clone())).collect()
}

#[test]
fn remember_puts_the_connection_first_and_dedups() {
    let existing = vec![
        profile("a:7000", "ann"),
        profile("b:7000", "bob"),
        profile("c:7000", "cid"),
    ];
    let updated = remember_profile(&existing, "b:7000", "bob");
    assert_eq!(
        pairs(&updated),
        vec![
            ("b:7000".to_string(), "bob".to_string()),
            ("a:7000".to_string(), "ann".to_string()),
            ("c:7000".to_string(), "cid".to_string()),
        ]
    );
}

#[test]
fn remember_keeps_same_server_other_user() {
    let existing = vec![profile("a:7000", "ann")];
    let updated = remember_profile(&existing, "a:7000", "bob");
    assert_eq!(
        pairs(&updated),
        vec![
            ("a:7000".to_string(), "bob".to_string()),
            ("a:7000".to_string(), "ann".to_string()),
        ]
    );
}

#[test]
fn remember_caps_the_list_at_ten() {
    let mut existing = Vec::new();
    for i in 0..12 {
        existing.push(profile(&format!("s{i}:7000"), "u"));
    }
    let updated = remember_profile(&existing, "new:7000", "u");
    assert_eq!(updated.len(), 10);
    assert_eq!(updated[0].server, "new:7000");
    assert_eq!(updated[1].server, "s0:7000");
    assert_eq!(updated[9].server, "s8:7000");
}

#[test]
fn config_path_joins_the_directory() {
    assert_eq!(Config::config_path("/home/x/.config/ttychat"), "/home/x/.config/ttychat/config.json");
}

#[test]
fn key_path_sanitizes_usernames() {
    assert_eq!(key_path("/cfg", "alice"), "/cfg/identity_alice.key");
    assert_eq!(key_path("/cfg", "a b!c"), "/cfg/identity_a_b_c.key");
    assert_eq!(key_path("/cfg", ""), "/cfg/identity.key");
    assert_eq!(key_path("/cfg", "Zoé9"), "/cfg/identity_Zoé9.key");
}
