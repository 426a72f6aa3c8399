use rust_service_template::configuration::{
    get_settings_filename, PathStyle, SettingsAction, SettingsEvent, SettingsReader,
};

#[test]
fn settings_filename_unix_joins_with_slash() {
    assert_eq!(get_settings_filename("/home/alice", PathStyle::Unix), "/home/alice/.settings");
}

#[test]
fn settings_filename_windows_joins_with_backslash() {
    assert_eq!(
        get_settings_filename("C:\\Users\\alice", PathStyle::Windows),
        "C:\\Users\\alice\\.settings"
    );
}

#[test]
fn settings_filename_empty_home() {
    assert_eq!(get_settings_filename("", PathStyle::Unix), "/.settings");
}

#[test]
fn reading_starts_with_the_url_variable() {
    match SettingsReader::next_action(SettingsEvent::Started, "/home/u", PathStyle::Unix) {
        SettingsAction::ReadVariable(name) => assert_eq!(name, "SETTINGS_URL"),
        _ => panic!("expected the variable to be read first"),
    }
}

#[test]
fn url_variable_set_fetches_it() {
    let event = SettingsEvent::UrlVariable(Some("http://config/settings.yaml".to_string()));
    match SettingsReader::next_action(event, "/home/u", PathStyle::Unix) {
        SettingsAction::Fetch(url) => assert_eq!(url, "http://config/settings.yaml"),
        _ => panic!("expected a fetch"),
    }
}

#[test]
fn url_variable_missing_falls_back_to_file() {
    match SettingsReader::next_action(SettingsEvent::UrlVariable(None), "/home/u", PathStyle::Unix)
    {
        SettingsAction::ReadFile(path) => assert_eq!(path, "/home/u/.settings"),
        _ => panic!("expected the file to be read"),
    }
}

#[test]
fn failed_request_falls_back_to_file() {
    match SettingsReader::next_action(SettingsEvent::UrlRequest(false), "C:\\h", PathStyle::Windows)
    {
        SettingsAction::ReadFile(path) => assert_eq!(path, "C:\\h\\.settings"),
        _ => panic!("expected the file to be read"),
    }
}

#[test]
fn answered_request_reads_body() {
    assert!(matches!(
        SettingsReader::next_action(SettingsEvent::UrlRequest(true), "/h", PathStyle::Unix),
        SettingsAction::ReadBody
    ));
}

#[test]
fn body_is_parsed() {
    let body = b"a: 1".to_vec();
    match SettingsReader::next_action(SettingsEvent::UrlBody(body), "/h", PathStyle::Unix) {
        SettingsAction::Parse(bytes) => assert_eq!(bytes, b"a: 1".to_vec()),
        _ => panic!("expected the body to be parsed"),
    }
}

#[test]
fn file_content_is_parsed() {
    let content = vec![1u8, 2, 3];
    match SettingsReader::next_action(SettingsEvent::FileContent(content), "/h", PathStyle::Unix) {
        SettingsAction::Parse(bytes) => assert_eq!(bytes, vec![1u8, 2, 3]),
        _ => panic!("expected the content to be parsed"),
    }
}

#[test]
fn env_settings_use_default_ports() {
    let config = SettingsReader::read_env_settings(
        "0.0.0.0".to_string(),
        None,
        None,
        "logs".to_string(),
        "dev".to_string(),
    );
    assert_eq!(config.base_url, "0.0.0.0");
    assert_eq!(config.grpc_port, "80");
    assert_eq!(config.http_port, "8080");
    assert_eq!(config.index, "logs");
    assert_eq!(config.environment, "dev");
}

#[test]
fn env_settings_take_given_ports() {
    let config = SettingsReader::read_env_settings(
        "127.0.0.1".to_string(),
        Some("5001".to_string()),
        Some("9090".to_string()),
        "i".to_string(),
        "prod".to_string(),
    );
    assert_eq!(config.grpc_port, "5001");
    assert_eq!(config.http_port, "9090");
}
