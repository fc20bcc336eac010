use proxy_installer::clean_registry_value;
use proxy_installer::keys::clean_registry_value_windows;
use proxy_installer::keys::{
    bounded_setter_check, check_bounded_setter, key_preview, should_store_key, SetterRefusal,
};

#[test]
fn cleaning_removes_padding_and_quotes() {
    assert_eq!(clean_registry_value(""), "");
    assert_eq!(clean_registry_value("  \"abc\"  "), "abc");
    assert_eq!(clean_registry_value("'x y'"), "x y");
    assert_eq!(clean_registry_value("\" inner \""), "inner");
    assert_eq!(clean_registry_value("\"abc'"), "\"abc'");
    assert_eq!(clean_registry_value("\""), "\"");
    assert_eq!(clean_registry_value("plain"), "plain");
}

#[test]
fn previews() {
    assert_eq!(key_preview("abcdefghijklmn"), (true, "abcdefghij...".to_string()));
    assert_eq!(key_preview("abc"), (true, "abc...".to_string()));
    assert_eq!(key_preview("NA"), (false, String::new()));
    assert_eq!(key_preview(""), (false, String::new()));
}

#[test]
fn stored_keys() {
    assert!(should_store_key("xai-123"));
    assert!(!should_store_key(""));
    assert!(!should_store_key("KEEP_EXISTING"));
}

#[test]
fn bounded_setter_guard() {
    assert_eq!(check_bounded_setter("Path", "x"), Err(SetterRefusal::SearchPath));
    assert_eq!(check_bounded_setter("path", "x"), Err(SetterRefusal::SearchPath));
    assert_eq!(check_bounded_setter("XAI_API_KEY", "abc"), Ok(()));
    let long = "k".repeat(1001);
    assert_eq!(check_bounded_setter("XAI_API_KEY", &long), Err(SetterRefusal::TooLong(1001)));
    assert_eq!(check_bounded_setter("XAI_API_KEY", &"k".repeat(1000)), Ok(()));
    assert_eq!(bounded_setter_check("PATH", "x"), Err(SetterRefusal::SearchPath));
    assert_eq!(bounded_setter_check("Path", "x"), Ok(()));
}

#[test]
fn windows_cleaning_removes_quote_layers_and_escapes() {
    assert_eq!(clean_registry_value_windows(""), "");
    assert_eq!(clean_registry_value_windows("  plain  "), "plain");
    assert_eq!(clean_registry_value_windows("\"abc\""), "abc");
    assert_eq!(clean_registry_value_windows("\\\"key\\\""), "key");
    assert_eq!(clean_registry_value_windows("'\"sk-1\"'"), "sk-1");
    assert_eq!(clean_registry_value_windows("\"\""), "");
    assert_eq!(clean_registry_value_windows("a\\\\b"), "a\\b");
    assert_eq!(clean_registry_value_windows("it\\'s"), "it's");
    assert_eq!(clean_registry_value_windows("abc\\"), "abc");
}
