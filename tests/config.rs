use meshmonitor_desktop::config::{generate_secret, resolve_load, secret_from, Config};

#[test]
fn test_default_config() {
    let config = Config::default();
    assert_eq!(config.meshtastic_port, 4403);
    assert_eq!(config.web_port, 8080);
    assert!(!config.setup_completed);
}

#[test]
fn test_generate_secret() {
    let secret = generate_secret();
    assert_eq!(secret.len(), 64); // two identifiers without dashes
}

#[test]
fn secret_is_lower_hex() {
    let secret = generate_secret();
    assert!(secret.chars().all(|c| c.is_ascii_digit() || ('a'..='f').contains(&c)));
    assert!(!secret.contains('-'));
}

#[test]
fn two_secrets_differ() {
    assert_ne!(generate_secret(), generate_secret());
}

#[test]
fn default_record_fields() {
    let config = Config::default();
    assert_eq!(config.meshtastic_ip, "192.168.1.100");
    assert!(!config.auto_start);
    assert_eq!(config.session_secret.len(), 64);
}

#[test]
fn with_secret_keeps_secret() {
    let config = Config::with_secret(String::from("abc"));
    assert_eq!(config.session_secret, "abc");
    assert_eq!(config.web_port, 8080);
}

#[test]
fn needs_setup_follows_flag() {
    let mut config = Config::with_secret(String::from("s"));
    assert!(config.needs_setup());
    config.complete_setup();
    assert!(!config.needs_setup());
    assert!(config.setup_completed);
    assert_eq!(config.session_secret, "s");
}

#[test]
fn load_of_stored_record_keeps_it() {
    let mut stored = Config::with_secret(String::from("0123"));
    stored.web_port = 9090;
    stored.meshtastic_ip = String::from("10.0.0.2");
    let (c, write_back) = resolve_load(Some(stored.clone()));
    assert!(!write_back);
    assert_eq!(c.web_port, 9090);
    assert_eq!(c.meshtastic_ip, "10.0.0.2");
    assert_eq!(c.session_secret, "0123");
}

#[test]
fn load_of_empty_store_creates_default() {
    let (c, write_back) = resolve_load(None);
    assert!(write_back);
    assert_eq!(c.meshtastic_port, 4403);
    assert_eq!(c.session_secret.len(), 64);
    assert!(c.needs_setup());
}

#[test]
fn secret_stable_across_two_loads() {
    let (first, write_back) = resolve_load(None);
    assert!(write_back);
    let (second, again) = resolve_load(Some(first.clone()));
    assert!(!again);
    assert_eq!(first.session_secret, second.session_secret);
}

#[test]
fn completed_setup_survives_reload() {
    let (mut c, _) = resolve_load(None);
    c.complete_setup();
    let (reloaded, _) = resolve_load(Some(c.clone()));
    assert!(!reloaded.needs_setup());
    assert_eq!(reloaded.session_secret, c.session_secret);
}

#[test]
fn secret_joins_first_then_second() {
    let first = "0123456789abcdef0123456789abcdef";
    let second = "fedcba9876543210fedcba9876543210";
    let s = secret_from(first, second);
    assert_eq!(s, "0123456789abcdef0123456789abcdeffedcba9876543210fedcba9876543210");
    assert_eq!(s.len(), 64);
    assert_ne!(secret_from(second, first), s);
}
