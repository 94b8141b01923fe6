use verbumdei_api::config::AppConfig;
use verbumdei_api::health::{HealthDbResponse, HealthResponse};

#[test]
fn address_joins_host_and_port() {
    let cfg = AppConfig::from_values(Some("127.0.0.1".to_string()), Some(3000), None, None);
    assert_eq!(cfg.address(), "127.0.0.1:3000");
    assert_eq!(cfg.mongo_uri, "mongodb://localhost:27017");
    assert_eq!(cfg.mongo_db, "verbumdei");
}

#[test]
fn defaults_apply_where_values_are_absent() {
    let cfg = AppConfig::from_values(None, None, Some("mongodb://db:27017".to_string()), Some("test".to_string()));
    assert_eq!(cfg.address(), "0.0.0.0:8080");
    assert_eq!(cfg.mongo_uri, "mongodb://db:27017");
    assert_eq!(cfg.mongo_db, "test");
    assert_eq!(AppConfig::from_values(None, Some(0), None, None).address(), "0.0.0.0:0");
    assert_eq!(AppConfig::from_values(None, Some(65535), None, None).address(), "0.0.0.0:65535");
}

#[test]
fn health_answers() {
    assert_eq!(HealthResponse::ok().status, "ok");
    assert_eq!(HealthDbResponse::from_ping(true).status, "ok");
    assert_eq!(HealthDbResponse::from_ping(false).status, "degraded");
    assert_eq!(HealthDbResponse::status_code(false), 503);
    assert_eq!(HealthDbResponse::status_code(true), 200);
}
