use rp_core::config::{default_reconnect_interval, default_true};
use rp_core::{mask_application_id, Config, Error};

#[test]
fn new_config_has_defaults() {
    let c = Config::new();
    assert_eq!(c.application_id_count(), 0);
    assert!(c.registered_indices().is_empty());
    assert!(c.auto_connect);
    assert!(c.auto_reconnect);
    assert_eq!(c.reconnect_interval, 30);
    assert!(c.activity.details.is_none());
    let d = Config::default();
    assert_eq!(d.reconnect_interval, 30);
    assert!(default_true());
    assert_eq!(default_reconnect_interval(), 30);
}

#[test]
fn index_zero_is_invalid() {
    let mut c = Config::new();
    assert!(matches!(c.get_application_id(0), Err(Error::InvalidIndex)));
    c.add_application_id(0, "zero".to_string());
    c.add_application_id(1, "one".to_string());
    assert!(matches!(c.get_application_id(0), Err(Error::InvalidIndex)));
}

#[test]
fn add_overwrites_and_keeps_order() {
    let mut c = Config::new();
    c.add_application_id(5, "five".to_string());
    c.add_application_id(2, "two".to_string());
    c.add_application_id(9, "nine".to_string());
    c.add_application_id(5, "FIVE".to_string());
    assert_eq!(c.registered_indices(), vec![2, 5, 9]);
    assert_eq!(c.application_id_count(), 3);
    assert_eq!(c.get_application_id(5).unwrap(), "FIVE");
    assert_eq!(c.get_application_id(2).unwrap(), "two");
    assert_eq!(c.get_application_id(9).unwrap(), "nine");
}

#[test]
fn env_values_with_a_gap() {
    let values = vec![Some("abc".to_string()), None, Some("xyz".to_string())];
    let c = Config::from_env(&values);
    assert_eq!(c.registered_indices(), vec![1, 3]);
    assert_eq!(c.get_application_id(1).unwrap(), "abc");
    assert_eq!(c.get_application_id(3).unwrap(), "xyz");
    match c.get_application_id(2) {
        Err(Error::NotFound { index, registered }) => {
            assert_eq!(index, 2);
            assert_eq!(registered, vec![1, 3]);
        }
        _ => panic!("expected NotFound"),
    }
}

#[test]
fn env_skips_empty_and_stops_at_the_bound() {
    let mut values: Vec<Option<String>> = Vec::new();
    for i in 0..105 {
        values.push(Some(format!("id{}", i + 1)));
    }
    values[3] = Some(String::new());
    let c = Config::from_env(&values);
    assert_eq!(c.application_id_count(), 99);
    assert!(matches!(c.get_application_id(4), Err(Error::NotFound { .. })));
    assert_eq!(c.get_application_id(100).unwrap(), "id100");
    assert!(matches!(c.get_application_id(101), Err(Error::NotFound { .. })));
}

#[test]
fn load_from_env_overrides_existing() {
    let mut c = Config::new();
    c.add_application_id(1, "old".to_string());
    c.add_application_id(7, "seven".to_string());
    c.load_from_env(&vec![Some("new".to_string())]);
    assert_eq!(c.get_application_id(1).unwrap(), "new");
    assert_eq!(c.get_application_id(7).unwrap(), "seven");
}

#[test]
fn mask_long_identity() {
    assert_eq!(mask_application_id("ABCDEFGHIJ"), "ABCD...GHIJ");
    assert_eq!(mask_application_id("123456789012345678"), "1234...5678");
}

#[test]
fn mask_short_identity_unchanged() {
    assert_eq!(mask_application_id("ABCDEFGH"), "ABCDEFGH");
    assert_eq!(mask_application_id(""), "");
}

#[test]
fn mask_counts_characters() {
    assert_eq!(mask_application_id("ééééxxxxyyyy"), "éééé...yyyy");
}
