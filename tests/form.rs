use shorty::duration::Parts;
use shorty::form::{
    check_request_size, response_outcome, FormError, LinkConfig, LinkFormValues, RequestError,
    ServerConfig,
};
use shorty::number::parse_i64;

fn server() -> ServerConfig {
    ServerConfig {
        public_url: "https://sho.rt".to_owned(),
        max_link_length: 20,
        max_json_size: 2097152,
        max_custom_id_length: 4,
        default_max_uses: 0,
        default_valid_for: 86400000,
    }
}

fn values(link: &str, id: &str, uses: &str, date: bool, exp: &str) -> LinkFormValues {
    LinkFormValues {
        link: link.to_owned(),
        advanced: true,
        custom_id: id.to_owned(),
        max_uses: uses.to_owned(),
        expiration_is_date: date,
        expiration: exp.to_owned(),
    }
}

#[test]
fn decimal_numbers_parse_like_std() {
    for s in ["0", "42", "-7", "+9", "9223372036854775807", "-9223372036854775808", "007"] {
        assert_eq!(parse_i64(s), s.parse::<i64>().ok());
    }
    for s in ["", "-", "+", "1a", " 1", "9223372036854775808", "-9223372036854775809", "1.0"] {
        assert_eq!(parse_i64(s), None);
        assert!(s.parse::<i64>().is_err());
    }
    assert_eq!(parse_i64("99999999999999999999999"), None);
}

#[test]
fn duration_text_parses_into_parts() {
    let p = Parts::parse("01:02:03:04").unwrap();
    assert_eq!((p.days, p.hours, p.minutes, p.seconds), (1, 2, 3, 4));
    let p = Parts::parse("-1:0:90:5").unwrap();
    assert_eq!((p.days, p.hours, p.minutes, p.seconds), (-1, 0, 90, 5));
    assert!(Parts::parse("01:02:03").is_err());
    assert!(Parts::parse("01:02:03:04:05").is_err());
    assert!(Parts::parse("aa:02:03:04").is_err());
    assert!(Parts::parse("").is_err());
    assert!(Parts::parse("1:2:3:").is_err());
}

#[test]
fn link_field_checks() {
    assert_eq!(LinkConfig::parse_link("https://a.b".to_owned(), Some(&server())).unwrap(), "https://a.b");
    let e = LinkConfig::parse_link(String::new(), Some(&server())).unwrap_err();
    assert!(matches!(e.as_slice(), [FormError::LinkInputEmpty]));
    let long = "https://example.com/abc".to_owned();
    let e = LinkConfig::parse_link(long.clone(), Some(&server())).unwrap_err();
    match e.as_slice() {
        [FormError::ExceededMaxLinkLength { link, max_length }] => {
            assert_eq!(link, &long);
            assert_eq!(*max_length, 20);
        },
        _ => panic!("unexpected errors"),
    }
    assert!(LinkConfig::parse_link(long, None).is_ok());
}

#[test]
fn id_field_checks() {
    assert_eq!(LinkConfig::parse_id(String::new(), Some(&server())).unwrap(), None);
    assert_eq!(LinkConfig::parse_id("abcd".to_owned(), Some(&server())).unwrap(), Some("abcd".to_owned()));
    let e = LinkConfig::parse_id("abcde".to_owned(), Some(&server())).unwrap_err();
    assert!(matches!(e.as_slice(), [FormError::ExceededMaxIdLength { max_length: 4, .. }]));
    assert!(LinkConfig::parse_id("abcde".to_owned(), None).is_ok());
}

#[test]
fn max_uses_field_checks() {
    assert_eq!(LinkConfig::parse_max_uses("  ").unwrap(), None);
    assert_eq!(LinkConfig::parse_max_uses(" 12 ").unwrap(), Some(12));
    assert_eq!(LinkConfig::parse_max_uses("0").unwrap(), Some(0));
    let e = LinkConfig::parse_max_uses(" x1 ").unwrap_err();
    match e.as_slice() {
        [FormError::ParseNumberFailure { number }] => assert_eq!(number, "x1"),
        _ => panic!("unexpected errors"),
    }
    let e = LinkConfig::parse_max_uses("-3").unwrap_err();
    assert!(matches!(e.as_slice(), [FormError::NegativeMaxUses { max_uses: -3 }]));
    assert_eq!(LinkConfig::parse_trimmed_max_uses("").unwrap(), None);
    assert!(LinkConfig::parse_trimmed_max_uses(" 5").is_err());
}

#[test]
fn duration_field_checks() {
    assert_eq!(LinkConfig::parse_duration("00:00:00:00").unwrap(), None);
    assert_eq!(LinkConfig::parse_duration("00:01:00:00").unwrap(), Some(3600000));
    assert_eq!(LinkConfig::parse_duration("0:0:0:0").unwrap(), Some(0));
    let e = LinkConfig::parse_duration("00:00:-1:00").unwrap_err();
    assert!(matches!(e.as_slice(), [FormError::NegativeExpiration { seconds: -60000 }]));
}

#[test]
fn date_field_checks() {
    let now = 1_700_000_000;
    assert_eq!(LinkConfig::parse_date("", now).unwrap(), None);
    assert_eq!(LinkConfig::parse_date("2023-11-15", now).unwrap(), Some((1_700_006_400 - now) * 1000));
    let e = LinkConfig::parse_date("2023-11-14", now).unwrap_err();
    assert!(matches!(e.as_slice(), [FormError::NegativeExpiration { seconds: -80_000_000 }]));
    let e = LinkConfig::parse_date("15.11.2023", now).unwrap_err();
    assert!(matches!(e.as_slice(), [FormError::InvalidDate { .. }]));
}

#[test]
fn form_without_advanced_settings() {
    let mut v = values("https://a.b", "toolong", "x", false, "garbage");
    v.advanced = false;
    let c = LinkConfig::try_from(&v, Some(&server()), 0).unwrap();
    assert_eq!(c.link, "https://a.b");
    assert_eq!(c.id, None);
    assert_eq!(c.max_uses, None);
    assert_eq!(c.valid_for, None);
}

#[test]
fn form_with_advanced_settings() {
    let v = values("https://a.b", "ab", "3", false, "00:00:01:00");
    let c = LinkConfig::try_from(&v, Some(&server()), 0).unwrap();
    assert_eq!(c.id, Some("ab".to_owned()));
    assert_eq!(c.max_uses, Some(3));
    assert_eq!(c.valid_for, Some(60000));
    let v = values("https://a.b", "", "", true, "1970-01-02");
    let c = LinkConfig::try_from(&v, None, 0).unwrap();
    assert_eq!(c.valid_for, Some(86_400_000));
}

#[test]
fn form_reports_every_error_in_order() {
    let v = values("", "abcdef", "-1", false, "00:00:00:-5");
    let e = LinkConfig::try_from(&v, Some(&server()), 0).unwrap_err();
    assert_eq!(e.len(), 4);
    assert!(matches!(e[0], FormError::LinkInputEmpty));
    assert!(matches!(e[1], FormError::ExceededMaxIdLength { .. }));
    assert!(matches!(e[2], FormError::NegativeMaxUses { max_uses: -1 }));
    assert!(matches!(e[3], FormError::NegativeExpiration { seconds: -5000 }));
}

#[test]
fn request_size_is_checked_against_server() {
    assert!(check_request_size(2097152, Some(&server())).is_ok());
    assert!(matches!(check_request_size(2097153, Some(&server())), Err(RequestError::JsonSizeExceeded)));
    assert!(check_request_size(usize::MAX, None).is_ok());
}

#[test]
fn server_answers_become_results() {
    assert_eq!(response_outcome(200, "https://sho.rt/x".to_owned(), None).unwrap(), "https://sho.rt/x");
    assert!(matches!(response_outcome(400, String::new(), None), Err(RequestError::Backend400)));
    match response_outcome(409, String::new(), Some("abc".to_owned())) {
        Err(RequestError::IdInUse { id }) => assert_eq!(id, "abc"),
        _ => panic!("expected a taken identifier"),
    }
}

#[test]
fn max_uses_trims_unicode_whitespace() {
    assert_eq!(LinkConfig::parse_max_uses("\u{3000}\u{a0}7\t\n").unwrap(), Some(7));
    assert_eq!(LinkConfig::parse_max_uses("\u{2028}").unwrap(), None);
}
