use dictionary_api::config::{
    AppConfig, TimeoutHandler, CORS_MAX_AGE_SECS, RATE_LIMIT_BURST_SIZE,
    RATE_LIMIT_SECONDS_PER_REQUEST, REQUEST_TIMEOUT_SECS,
};
use dictionary_api::headers::SecurityHeaders;
use std::time::Duration;

#[test]
fn timeout_handler_keeps_its_duration() {
    let h = TimeoutHandler::new(Duration::from_secs(REQUEST_TIMEOUT_SECS));
    assert_eq!(h.duration, Duration::from_secs(10));
}

#[test]
fn limits_of_the_service() {
    assert_eq!(RATE_LIMIT_SECONDS_PER_REQUEST, 5);
    assert_eq!(RATE_LIMIT_BURST_SIZE, 10);
    assert_eq!(CORS_MAX_AGE_SECS, 3600);
}

#[test]
fn config_holds_its_settings() {
    let c = AppConfig {
        account_key: "k".to_string(),
        project_id: "p".to_string(),
        front_end_point: "https://example.org".to_string(),
    };
    let d = c.clone();
    assert_eq!(d.front_end_point, "https://example.org");
    assert_eq!(d.project_id, "p");
}

#[test]
fn security_headers_in_order() {
    let h = SecurityHeaders.headers();
    assert_eq!(
        h,
        vec![
            ("x-content-type-options", "nosniff"),
            ("x-frame-options", "DENY"),
            ("x-xss-protection", "1; mode=block"),
            ("strict-transport-security", "max-age=31536000; includeSubDomains"),
            ("referrer-policy", "no-referrer"),
            ("permissions-policy", "geolocation=(), microphone=()"),
            ("content-security-policy", "default-src 'self'"),
        ]
    );
}

#[test]
fn security_header_names_are_distinct() {
    let h = SecurityHeaders.headers();
    for i in 0..h.len() {
        for j in (i + 1)..h.len() {
            assert_ne!(h[i].0, h[j].0);
        }
    }
}
