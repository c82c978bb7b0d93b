use retdec::settings::Settings;
use retdec::settings::DEFAULT_API_URL;

#[test]
fn settings_new_has_no_api_key_and_the_default_url() {
    let s = Settings::new();

    assert!(s.api_key().is_none());
    assert_eq!(s.api_url(), DEFAULT_API_URL);
    assert_eq!(s.api_url(), "https://retdec.com/service/api");
}

#[test]
fn settings_from_environment_uses_given_values_and_strips_slash() {
    let s = Settings::from_environment(Some("K".to_string()), Some("http://x/".to_string()));
    assert_eq!(s.api_key(), Some("K"));
    assert_eq!(s.api_url(), "http://x");

    let s = Settings::from_environment(None, None);
    assert!(s.api_key().is_none());
    assert_eq!(s.api_url(), DEFAULT_API_URL);
}

#[test]
fn settings_api_key_returns_correct_value_after_being_set() {
    let mut s = Settings::new();
    s.set_api_key("KEY");

    assert_eq!(s.api_key(), Some("KEY"));
}

#[test]
fn settings_api_url_returns_correct_value_after_being_set() {
    let mut s = Settings::new();
    s.set_api_url("URL");

    assert_eq!(s.api_url(), "URL");
}

#[test]
fn settings_trailing_slash_is_removed_from_api_url() {
    let s = Settings::new()
        .with_api_url(&format!("{}/", DEFAULT_API_URL));

    assert_eq!(s.api_url(), DEFAULT_API_URL);
}

#[test]
fn settings_only_one_trailing_slash_is_removed() {
    let s = Settings::new().with_api_url("u//");

    assert_eq!(s.api_url(), "u/");
}

#[test]
fn settings_can_set_all_attributes_at_once_via_with_methods() {
    let s = Settings::new()
        .with_api_key("KEY")
        .with_api_url("URL");

    assert_eq!(s.api_key(), Some("KEY"));
    assert_eq!(s.api_url(), "URL");
}
