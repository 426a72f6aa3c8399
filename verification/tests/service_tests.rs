use rust_service_template::app_ctx::GetLogStashUrl;
use rust_service_template::configuration::EnvConfig;
use rust_service_template::domain::{Database, DatabaseImpl, RequestCounter};
use rust_service_template::server::{
    grpc_endpoint, grpc_listen_address, http_listen_address, is_alive,
};
use rust_service_template::service::settings_model::{SettingsModel, SettingsModelInner};
use rust_service_template::services::{BookStoreImpl, GetBookRequest};

fn config() -> EnvConfig {
    EnvConfig {
        base_url: "127.0.0.1".to_string(),
        grpc_port: "5000".to_string(),
        http_port: "8080".to_string(),
        index: "logs".to_string(),
        environment: "test".to_string(),
    }
}

#[test]
fn book_answer_carries_id_and_counter() {
    let mut store = BookStoreImpl::new(DatabaseImpl::new());
    let response = store.get_book(GetBookRequest { id: "123".to_string() });
    assert_eq!(response.id, "123");
    assert_eq!(response.author, "Peter");
    assert_eq!(response.name, "Zero to One");
    assert_eq!(response.year, 2014);
    assert_eq!(response.counter, 1);
}

#[test]
fn counter_counts_requests() {
    let mut store = BookStoreImpl::new(DatabaseImpl::new());
    for expected in 1..=5u64 {
        let response = store.get_book(GetBookRequest { id: format!("{}", expected) });
        assert_eq!(response.counter, expected);
    }
    assert_eq!(store.database.read(), RequestCounter { counter: 5 });
}

#[test]
fn database_increase_advances_by_one() {
    let mut db = DatabaseImpl::new();
    assert_eq!(db.read().counter, 0);
    db.increase();
    db.increase();
    assert_eq!(db.read().counter, 2);
}

#[test]
fn is_alive_names_service_and_version() {
    let answer = is_alive("rust_service_template", "0.1.0");
    assert_eq!(answer.name, "rust_service_template");
    assert_eq!(answer.version, "0.1.0");
}

#[test]
fn listen_addresses_join_host_and_port() {
    let c = config();
    assert_eq!(grpc_listen_address(&c), "127.0.0.1:5000");
    assert_eq!(http_listen_address(&c), "127.0.0.1:8080");
    assert_eq!(grpc_endpoint(&c), "http://127.0.0.1:5000");
}

#[test]
fn logstash_url_comes_from_settings() {
    let settings = SettingsModel {
        inner: SettingsModelInner {
            zipkin_url: "http://zipkin".to_string(),
            seq_service_url: "http://seq".to_string(),
            log_stash_url: "127.0.0.1:5044".to_string(),
        },
    };
    assert_eq!(settings.get_logstash_url(), "127.0.0.1:5044");
}
