use axum_session_api::cache::{
    delete_command, get_command, redis_url, reply_text, send_error, set_command, uses_cache,
    CacheReply,
};
use axum_session_api::config::Config;
use axum_session_api::errors::ApiError;

fn config(url: &str) -> Config {
    Config {
        auth_salt: "a-test-salt-of-some-length".to_string(),
        jwt_expiration: 24,
        jwt_key: "k".to_string(),
        redis_url: url.to_string(),
        server: "127.0.0.1:3000".to_string(),
        session_key: "0123456789abcdef0123456789abcdef".to_string(),
        session_name: "auth".to_string(),
        session_secure: false,
        session_timeout: 20,
    }
}

#[test]
fn commands_name_the_operation_then_the_arguments() {
    assert_eq!(get_command("testing"), vec!["GET", "testing"]);
    assert_eq!(set_command("testing", "123"), vec!["SET", "testing", "123"]);
    assert_eq!(delete_command("testing"), vec!["DEL", "testing"]);
}

#[test]
fn replies_read_as_text() {
    assert_eq!(reply_text(CacheReply::Okay), "OK");
    assert_eq!(reply_text(CacheReply::SimpleString("PONG".to_string())), "PONG");
    assert_eq!(reply_text(CacheReply::BulkString(b"123".to_vec())), "123");
    assert_eq!(reply_text(CacheReply::BulkString(vec![0xc3, 0xa9])), "é");
    assert_eq!(reply_text(CacheReply::BulkString(vec![0xff, 0xfe])), "");
    assert_eq!(reply_text(CacheReply::Other), "");
}

#[test]
fn a_failed_send_names_the_command() {
    match send_error(&get_command("testing")) {
        ApiError::CacheError(m) => {
            assert_eq!(m, "Could not send [\"GET\", \"testing\"] command to Redis")
        }
        _ => panic!("expected a cache error"),
    }
}

#[test]
fn a_scheme_is_added_where_missing() {
    assert_eq!(redis_url(&config("127.0.0.1:6379")), "redis://127.0.0.1:6379");
    assert_eq!(redis_url(&config("rediss://cache:6380")), "rediss://cache:6380");
}

#[test]
fn redis_url_is_idempotent() {
    let once = redis_url(&config("127.0.0.1:6379"));
    assert_eq!(redis_url(&config(&once)), once);
}

#[test]
fn the_cache_is_used_only_with_a_url() {
    assert!(!uses_cache(&config("")));
    assert!(uses_cache(&config("127.0.0.1:6379")));
}

#[test]
fn open_client_parses_the_configured_url() {
    assert!(axum_session_api::cache::open_client(&config("127.0.0.1:6379")).is_ok());
    assert!(matches!(
        axum_session_api::cache::open_client(&config("http://127.0.0.1:6379")),
        Err(ApiError::CacheError(_))
    ));
}

#[test]
fn open_client_connects_to_the_configured_server() {
    let client = axum_session_api::cache::open_client(&config("cache.example:6380")).unwrap();
    let info = client.get_connection_info();
    assert_eq!(info.addr().to_string(), "cache.example:6380");
}
