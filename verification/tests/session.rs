use axum::response::IntoResponse;
use axum_extra::extract::cookie::{Cookie, PrivateCookieJar};
use axum_session_api::auth::create_jwt;
use axum_session_api::config::Config;
use axum_session_api::errors::ApiError;
use axum_session_api::middleware::{identity_claims, session_claims, unauthorized, LOGIN_PATH};
use axum_session_api::session::{forget, get_identity, get_identity_key, remember};

fn config() -> Config {
    Config {
        auth_salt: "a-test-salt-of-some-length".to_string(),
        jwt_expiration: 24,
        jwt_key: "a-secret-jwt-key-for-tests".to_string(),
        redis_url: String::new(),
        server: "127.0.0.1:3000".to_string(),
        session_key: "0123456789abcdef0123456789abcdef0123456789abcdef".to_string(),
        session_name: "auth".to_string(),
        session_secure: true,
        session_timeout: 20,
    }
}

fn empty_jar() -> PrivateCookieJar {
    PrivateCookieJar::new(get_identity_key(&config()))
}

fn set_cookie_headers(jar: PrivateCookieJar) -> Vec<String> {
    let response = jar.into_response();
    response
        .headers()
        .get_all(axum::http::header::SET_COOKIE)
        .iter()
        .map(|v| v.to_str().unwrap().to_string())
        .collect()
}

#[test]
fn identity_is_read_back_after_remember() {
    let jar = remember(empty_jar(), "a.jwt.token".to_string(), &config());
    assert_eq!(get_identity(&jar, &config()), Some("a.jwt.token".to_string()));
}

#[test]
fn identity_is_gone_after_forget() {
    let jar = remember(empty_jar(), "a.jwt.token".to_string(), &config());
    let jar = forget(jar, &config());
    assert_eq!(get_identity(&jar, &config()), None);
}

#[test]
fn a_fresh_jar_has_no_identity() {
    assert_eq!(get_identity(&empty_jar(), &config()), None);
}

#[test]
fn remember_keeps_other_cookies() {
    let jar = empty_jar().add(Cookie::new("other", "value"));
    let jar = remember(jar, "t.o.k".to_string(), &config());
    let jar = forget(jar, &config());
    assert_eq!(jar.get("other").unwrap().value(), "value");
}

#[test]
fn remember_again_replaces_the_token() {
    let jar = remember(empty_jar(), "first".to_string(), &config());
    let jar = remember(jar, "second".to_string(), &config());
    assert_eq!(get_identity(&jar, &config()), Some("second".to_string()));
}

#[test]
fn remember_sends_an_encrypted_http_only_cookie() {
    let jar = remember(empty_jar(), "a.jwt.token".to_string(), &config());
    let headers = set_cookie_headers(jar);
    assert_eq!(headers.len(), 1);
    let h = &headers[0];
    assert!(h.starts_with("auth="));
    assert!(!h.contains("a.jwt.token"));
    assert!(h.contains("HttpOnly"));
    assert!(h.contains("Secure"));
    assert!(h.contains("Path=/"));
    assert!(h.contains("Max-Age=1200"));
}

#[test]
fn forget_of_a_cookie_never_sent_sends_nothing() {
    let jar = forget(empty_jar(), &config());
    assert!(set_cookie_headers(jar).is_empty());
}

#[test]
fn forget_of_a_carried_cookie_sends_a_removal() {
    let cfg = config();
    let sent = set_cookie_headers(remember(empty_jar(), "a.jwt.token".to_string(), &cfg));
    let pair = sent[0].split(';').next().unwrap().to_string();
    let mut headers = axum::http::HeaderMap::new();
    headers.insert(axum::http::header::COOKIE, pair.parse().unwrap());
    let jar = PrivateCookieJar::from_headers(&headers, get_identity_key(&cfg));
    assert_eq!(get_identity(&jar, &cfg), Some("a.jwt.token".to_string()));
    let jar = forget(jar, &cfg);
    assert_eq!(get_identity(&jar, &cfg), None);
    let removal = set_cookie_headers(jar);
    assert_eq!(removal.len(), 1);
    assert!(removal[0].starts_with("auth=;"));
    assert!(removal[0].contains("Max-Age=0"));
    assert!(removal[0].contains("Path=/"));
    assert!(removal[0].contains("HttpOnly"));
}

#[test]
fn the_login_route_is_always_let_through() {
    assert!(!unauthorized(false, LOGIN_PATH));
    assert!(!unauthorized(false, "/api/v1/auth/login"));
}

#[test]
fn requests_without_identity_are_turned_away() {
    assert!(unauthorized(false, "/api/v1/user"));
    assert!(unauthorized(false, "/secure/index.html"));
    assert!(unauthorized(false, "/api/v1/auth/login/"));
}

#[test]
fn requests_with_identity_are_let_through() {
    assert!(!unauthorized(true, "/api/v1/user"));
    assert!(!unauthorized(true, LOGIN_PATH));
}

#[test]
fn session_claims_without_a_cookie_is_an_error() {
    let r = session_claims(&empty_jar(), &config());
    assert!(matches!(r, Err(ApiError::CannotDecodeJwtToken(_))));
    assert!(identity_claims(&empty_jar(), &config()).is_none());
}

#[test]
fn session_claims_gives_the_claims_of_a_remembered_token() {
    let text = "{\"email\":\"a@b.c\",\"exp\":4102444800}";
    let token = create_jwt(text, &config()).unwrap();
    let jar = remember(empty_jar(), token, &config());
    assert_eq!(session_claims(&jar, &config()).unwrap(), text);
    assert_eq!(identity_claims(&jar, &config()).unwrap().unwrap(), text);
}

#[test]
fn session_claims_of_a_bad_token_is_an_error() {
    let jar = remember(empty_jar(), "not-a-token".to_string(), &config());
    assert!(session_claims(&jar, &config()).is_err());
    assert!(matches!(identity_claims(&jar, &config()), Some(Err(ApiError::CannotDecodeJwtToken(_)))));
}

fn headers_of(jar: PrivateCookieJar) -> Vec<String> {
    set_cookie_headers(jar)
        .iter()
        .map(|h| h.split(';').next().unwrap().to_string())
        .collect()
}

#[test]
fn a_request_jar_reads_the_cookies_that_were_sent() {
    let cfg = config();
    let sent = headers_of(remember(empty_jar(), "a.jwt.token".to_string(), &cfg));
    let jar = axum_session_api::session::request_jar(&sent, &cfg);
    assert_eq!(get_identity(&jar, &cfg), Some("a.jwt.token".to_string()));
    assert!(set_cookie_headers(jar).is_empty());
}

#[test]
fn a_request_jar_ignores_cookies_sealed_with_another_key() {
    let cfg = config();
    let mut other = config();
    other.session_key = "another-session-key-of-32-bytes-or-more".to_string();
    let sent = headers_of(remember(PrivateCookieJar::new(get_identity_key(&other)), "t.o.k".to_string(), &other));
    let jar = axum_session_api::session::request_jar(&sent, &cfg);
    assert_eq!(get_identity(&jar, &cfg), None);
}

#[test]
fn a_request_jar_ignores_plain_cookies() {
    let cfg = config();
    let jar = axum_session_api::session::request_jar(&vec!["auth=plain; x=y".to_string()], &cfg);
    assert_eq!(get_identity(&jar, &cfg), None);
}

#[test]
fn forget_of_a_received_identity_sends_a_removal() {
    let cfg = config();
    let sent = headers_of(remember(empty_jar(), "a.jwt.token".to_string(), &cfg));
    let jar = forget(axum_session_api::session::request_jar(&sent, &cfg), &cfg);
    assert_eq!(get_identity(&jar, &cfg), None);
    let removal = set_cookie_headers(jar);
    assert_eq!(removal.len(), 1);
    assert!(removal[0].starts_with("auth=;"));
    assert!(removal[0].contains("Max-Age=0"));
    assert!(removal[0].contains("Expires="));
}

#[test]
fn keys_derived_from_one_session_key_agree() {
    let cfg = config();
    let jar = remember(PrivateCookieJar::new(get_identity_key(&cfg)), "x.y.z".to_string(), &cfg);
    let sent = headers_of(jar);
    let mut headers = axum::http::HeaderMap::new();
    headers.insert(axum::http::header::COOKIE, sent[0].parse().unwrap());
    let again = PrivateCookieJar::from_headers(&headers, get_identity_key(&cfg));
    assert_eq!(get_identity(&again, &cfg), Some("x.y.z".to_string()));
}

#[test]
fn start_session_remembers_the_token_of_the_claims() {
    let cfg = config();
    let text = "{\"email\":\"a@b.c\",\"exp\":4102444800}";
    let jar = axum_session_api::session::start_session(empty_jar(), text, &cfg).unwrap();
    assert_eq!(get_identity(&jar, &cfg), Some(create_jwt(text, &cfg).unwrap()));
    assert_eq!(session_claims(&jar, &cfg).unwrap(), text);
}

#[test]
fn start_session_refuses_text_that_is_not_json() {
    let r = axum_session_api::session::start_session(empty_jar(), "{oops", &config());
    assert!(matches!(r, Err(ApiError::CannotEncodeJwtToken(_))));
}

#[test]
fn forget_works_for_a_very_long_name_too() {
    let mut cfg = config();
    cfg.session_name = "n".repeat(4096);
    let jar = forget(empty_jar(), &cfg);
    assert_eq!(get_identity(&jar, &cfg), None);
}

#[test]
fn a_request_without_cookies_carries_no_identity() {
    let jar = axum_session_api::session::request_jar(&Vec::new(), &config());
    assert_eq!(get_identity(&jar, &config()), None);
    assert!(jar.iter().next().is_none());
}
