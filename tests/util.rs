use shorty::config::{
    get_embedded_file,
    listen_url_default, max_custom_id_length_default, max_json_size_default,
    max_link_length_default, max_uses_default, port_default, valid_for_duration_default,
};
use shorty::util::{
    ensure_http_prefix, generate_random_chars, replace_illegal_url_chars, starts_with,
    time_now, uri_to_url,
};

#[test]
fn http_prefix_is_added_when_missing() {
    assert_eq!(ensure_http_prefix("example.com".to_owned()), "http://example.com");
    assert_eq!(ensure_http_prefix("http://a.b".to_owned()), "http://a.b");
    assert_eq!(ensure_http_prefix("https://a.b".to_owned()), "https://a.b");
    assert_eq!(ensure_http_prefix("ftp://a.b".to_owned()), "http://ftp://a.b");
    assert_eq!(ensure_http_prefix(String::new()), "http://");
    assert_eq!(ensure_http_prefix("http:/".to_owned()), "http://http:/");
}

#[test]
fn spaces_become_underscores() {
    assert_eq!(replace_illegal_url_chars("my link id"), "my_link_id");
    assert_eq!(replace_illegal_url_chars("  "), "__");
    assert_eq!(replace_illegal_url_chars(""), "");
    assert_eq!(replace_illegal_url_chars("ä ö"), "ä_ö");
}

#[test]
fn uri_loses_its_leading_slash() {
    assert_eq!(uri_to_url("/https://a.org/x"), "https://a.org/x");
    assert_eq!(uri_to_url("/"), "");
    assert_eq!(uri_to_url(""), "");
}

#[test]
fn prefix_test() {
    assert!(starts_with("https://x", "https://"));
    assert!(starts_with("abc", ""));
    assert!(!starts_with("ab", "abc"));
    assert!(!starts_with("xbc", "ab"));
}

#[test]
fn random_ids_are_six_url_safe_chars() {
    for _ in 0..100 {
        let id = generate_random_chars();
        assert_eq!(id.chars().count(), 6);
        assert!(id.chars().all(|c| c.is_ascii_alphanumeric() || c == '-' || c == '_'));
    }
    assert_ne!(generate_random_chars(), generate_random_chars());
}

#[test]
fn clock_reads_milliseconds() {
    let a = time_now();
    assert!(a > 1_600_000_000_000);
    assert!(time_now() >= a);
}

#[test]
fn config_defaults() {
    assert_eq!(listen_url_default(), "127.0.0.1");
    assert_eq!(port_default(), 7999);
    assert_eq!(max_link_length_default(), 2500);
    assert_eq!(max_json_size_default(), 2 * 1024 * 1024);
    assert_eq!(max_custom_id_length_default(), 64);
    assert_eq!(max_uses_default(), 0);
    assert_eq!(valid_for_duration_default(), 24 * 60 * 60 * 1000);
}

#[test]
fn embedded_file_types() {
    assert_eq!(get_embedded_file("index.html").as_deref(), Some("text/html"));
    assert_eq!(get_embedded_file("main.js").as_deref(), Some("text/javascript"));
    assert_eq!(get_embedded_file("style.css").as_deref(), Some("text/css"));
    assert_eq!(get_embedded_file("roboto_mono.ttf").as_deref(), Some("font/ttf"));
    assert_eq!(get_embedded_file("secret.txt"), None);
}
