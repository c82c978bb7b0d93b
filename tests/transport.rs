use retdec::settings::Settings;
use retdec::transport::auth_username;
use retdec::transport::current_platform_name;
use retdec::transport::user_agent;

#[test]
fn current_platform_name_maps_known_systems() {
    assert_eq!(current_platform_name("linux"), "Linux");
    assert_eq!(current_platform_name("macos"), "macOS");
    assert_eq!(current_platform_name("windows"), "Windows");
    assert_eq!(current_platform_name("plan9"), "Unknown");
}

#[test]
fn user_agent_names_library_and_platform() {
    assert_eq!(user_agent("Linux"), "retdec-rust/Linux");
}

#[test]
fn auth_username_requires_api_key() {
    let err = auth_username(&Settings::new()).err().expect("expected a missing key");
    assert_eq!(err.description(), "missing API key");
    assert_eq!(auth_username(&Settings::new().with_api_key("K")).unwrap(), "K");
}
