use notify_run::api::ApiError;
use notify_run::config::{ConfigError, ServiceConfig, SUBSCRIBER_PAGE_SIZE};
use notify_run::qr::render_qr_code;

fn config() -> ServiceConfig {
    ServiceConfig::new("https://notify.example", "PUBKEY", "AQID_-8=").unwrap()
}

#[test]
fn private_key_is_url_safe_base64() {
    let c = config();
    assert_eq!(c.vapid_privkey, vec![1u8, 2, 3, 255, 239]);
    assert_eq!(c.vapid_pubkey, "PUBKEY");
    assert_eq!(c.server_base, "https://notify.example");
    assert_eq!(c.subscriber_page_size, SUBSCRIBER_PAGE_SIZE);
    assert_eq!(SUBSCRIBER_PAGE_SIZE, 10);
}

#[test]
fn bad_private_key_is_refused() {
    let r = ServiceConfig::new("https://notify.example", "PUBKEY", "not base64!");
    assert_eq!(r.err(), Some(ConfigError::InvalidPrivateKey));
}

#[test]
fn urls_of_a_channel() {
    let c = config();
    assert_eq!(c.endpoint_url("abcdef"), "https://notify.example/abcdef");
    assert_eq!(c.channel_page_url("abcdef"), "https://notify.example/c/abcdef");
    assert_eq!(c.service_worker_url(), "https://notify.example/static/service-worker.js");
}

#[test]
fn redirects_only_channel_like_ids() {
    let c = config();
    assert_eq!(c.redirect_target("Ab12345"), Some("https://notify.example/c/Ab12345".to_string()));
    assert_eq!(c.redirect_target("abc123"), None);
    assert_eq!(c.redirect_target("abc-12345"), None);
    assert_eq!(c.redirect_target("abcdéfgh"), None);
    assert_eq!(c.redirect_target(""), None);
}

#[test]
fn status_codes_of_errors() {
    assert_eq!(ApiError::NotFound.status_code(), 404);
    assert_eq!(ApiError::RateLimited.status_code(), 429);
    assert_eq!(ApiError::Conflict.status_code(), 409);
    assert_eq!(ApiError::Internal.status_code(), 500);
}

#[test]
fn qr_code_is_an_svg_image() {
    let svg = render_qr_code(&config(), "abcdef").unwrap();
    assert!(svg.contains("<svg"));
    assert!(svg.contains("#000000"));
    assert!(svg.contains("#ffffff"));
    assert_ne!(svg, "https://notify.example/c/abcdef");
}
