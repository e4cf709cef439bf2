use user_auth::config::{load_configuration, Config};

fn entry(key: &str, value: &str) -> (String, String) {
    (key.to_string(), value.to_string())
}

#[test]
fn empty_settings_hold_nothing() {
    let settings = Config::new();
    assert_eq!(settings.get_string("secrets.jwt_secret_key"), None);
    assert_eq!(settings.get_string(""), None);
}

#[test]
fn set_value_is_found() {
    let mut settings = Config::new();
    settings.set("secrets.jwt_secret_key", "k1");
    assert_eq!(settings.get_string("secrets.jwt_secret_key"), Some("k1".to_string()));
    assert_eq!(settings.get_string("secrets.jwt_secret_ke"), None);
    assert_eq!(settings.get_string("SECRETS.JWT_SECRET_KEY"), None);
}

#[test]
fn later_value_replaces_earlier() {
    let mut settings = Config::new();
    settings.set("a", "1");
    settings.set("b", "2");
    settings.set("a", "3");
    assert_eq!(settings.get_string("a"), Some("3".to_string()));
    assert_eq!(settings.get_string("b"), Some("2".to_string()));
}

#[test]
fn file_alone_is_loaded() {
    let settings = load_configuration(vec![entry("secrets.jwt_secret_key", "from-file")], vec![]);
    assert_eq!(settings.get_string("secrets.jwt_secret_key"), Some("from-file".to_string()));
}

#[test]
fn environment_overrides_file() {
    let settings = load_configuration(
        vec![entry("secrets.jwt_secret_key", "from-file"), entry("db.url", "sqlite://users.db")],
        vec![entry("secrets.jwt_secret_key", "from-env")],
    );
    assert_eq!(settings.get_string("secrets.jwt_secret_key"), Some("from-env".to_string()));
    assert_eq!(settings.get_string("db.url"), Some("sqlite://users.db".to_string()));
}

#[test]
fn environment_adds_what_the_file_lacks() {
    let settings = load_configuration(vec![entry("a", "1")], vec![entry("b", "2")]);
    assert_eq!(settings.get_string("a"), Some("1".to_string()));
    assert_eq!(settings.get_string("b"), Some("2".to_string()));
    assert_eq!(settings.get_string("c"), None);
}

#[test]
fn nothing_loaded_holds_nothing() {
    let settings = load_configuration(vec![], vec![]);
    assert_eq!(settings.get_string("a"), None);
}

#[test]
fn within_one_source_the_last_entry_stands() {
    let settings = load_configuration(
        vec![entry("a", "1"), entry("a", "2")],
        vec![entry("b", "x"), entry("b", "y")],
    );
    assert_eq!(settings.get_string("a"), Some("2".to_string()));
    assert_eq!(settings.get_string("b"), Some("y".to_string()));
}
