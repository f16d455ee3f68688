use mvlc::settings::{is_enabled_flag, is_on_lowercase};

#[test]
fn switch_words_in_any_case() {
    assert!(is_enabled_flag("1"));
    assert!(is_enabled_flag("TRUE"));
    assert!(is_enabled_flag("Yes"));
    assert!(is_enabled_flag("oN"));
}

#[test]
fn other_values_leave_switch_off() {
    assert!(!is_enabled_flag("0"));
    assert!(!is_enabled_flag(""));
    assert!(!is_enabled_flag("yes "));
    assert!(!is_enabled_flag("enabled"));
}

#[test]
fn lowercase_words_only() {
    assert!(is_on_lowercase(&"true".to_string()));
    assert!(!is_on_lowercase(&"True".to_string()));
}
