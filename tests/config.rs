use std::collections::hash_map::DefaultHasher;
use std::hash::{Hash, Hasher};

use dstatus::config::{Button, Config};
use dstatus::config_hash::{calculate_config_hash, format_hash};

fn button(label: &str) -> Button {
    Button { label: label.to_string(), url: format!("https://{}.example", label) }
}

fn labels(c: &Config) -> Option<Vec<String>> {
    c.buttons.as_ref().map(|b| b.iter().map(|x| x.label.clone()).collect())
}

#[test]
fn default_config_is_empty() {
    let c = Config::default();
    assert_eq!(c.client_id, "");
    assert_eq!(c.party_size, 0);
    assert!(c.buttons.is_none());
    assert!(c.instance.is_none());
}

#[test]
fn limit_buttons_keeps_the_first_two() {
    let mut c = Config::default();
    c.client_id = "id".to_string();
    c.buttons = Some(vec![button("a"), button("b"), button("c")]);
    c.limit_buttons();
    assert_eq!(labels(&c), Some(vec!["a".to_string(), "b".to_string()]));
    assert_eq!(c.client_id, "id");
    c.buttons = Some(vec![button("x")]);
    c.limit_buttons();
    assert_eq!(labels(&c), Some(vec!["x".to_string()]));
    c.buttons = Some(Vec::new());
    c.limit_buttons();
    assert_eq!(labels(&c), Some(Vec::new()));
    c.buttons = None;
    c.limit_buttons();
    assert_eq!(labels(&c), None);
}

#[test]
fn format_hash_is_lowercase_hex() {
    assert_eq!(format_hash(0), "0");
    assert_eq!(format_hash(9), "9");
    assert_eq!(format_hash(10), "a");
    assert_eq!(format_hash(255), "ff");
    assert_eq!(format_hash(0x10), "10");
    assert_eq!(format_hash(0xdead_beef), "deadbeef");
    assert_eq!(format_hash(u64::MAX), "ffffffffffffffff");
    assert_eq!(format_hash(0x0123_4567_89ab_cdef), format!("{:x}", 0x0123_4567_89ab_cdefu64));
}

fn reference_hash(c: &Config) -> String {
    let mut hasher = DefaultHasher::new();
    c.client_id.hash(&mut hasher);
    c.details.hash(&mut hasher);
    c.state.hash(&mut hasher);
    c.large_image.hash(&mut hasher);
    c.large_text.hash(&mut hasher);
    c.small_image.hash(&mut hasher);
    c.small_text.hash(&mut hasher);
    c.start_timestamp.hash(&mut hasher);
    c.end_timestamp.hash(&mut hasher);
    c.party_size.hash(&mut hasher);
    c.party_max.hash(&mut hasher);
    c.match_secret.hash(&mut hasher);
    c.join_secret.hash(&mut hasher);
    c.spectate_secret.hash(&mut hasher);
    c.instance.hash(&mut hasher);
    format!("{:x}", hasher.finish())
}

#[test]
fn config_hash_covers_the_compared_fields() {
    let mut a = Config::default();
    a.client_id = "123".to_string();
    a.details = "details".to_string();
    a.start_timestamp = Some(1_700_000_000);
    a.join_secret = Some("secret".to_string());
    a.instance = Some(true);
    let h = calculate_config_hash(&a);
    assert_eq!(h, reference_hash(&a));
    assert!(h.chars().all(|ch| ch.is_ascii_hexdigit() && !ch.is_ascii_uppercase()));
    let mut renamed = Config::default();
    renamed.client_id = "123".to_string();
    renamed.details = "details".to_string();
    renamed.start_timestamp = Some(1_700_000_000);
    renamed.join_secret = Some("secret".to_string());
    renamed.instance = Some(true);
    renamed.name = "another name".to_string();
    renamed.max_party_size = 9;
    assert_eq!(calculate_config_hash(&renamed), h);
    renamed.details = "other".to_string();
    assert_ne!(calculate_config_hash(&renamed), h);
    assert_eq!(calculate_config_hash(&renamed), reference_hash(&renamed));
}
