use conduit_web_demo::privacy::PrivacyFilter;

#[test]
fn endpoint_under_base_url() {
    assert_eq!(PrivacyFilter::new("http://127.0.0.1:8000".to_string(), true).endpoint(), "http://127.0.0.1:8000/redact/batch");
    assert_eq!(PrivacyFilter::new("http://127.0.0.1:8000//".to_string(), true).endpoint(), "http://127.0.0.1:8000/redact/batch");
    assert_eq!(
        PrivacyFilter::new("http://pf/".to_string(), false).endpoint(),
        PrivacyFilter::new("http://pf".to_string(), false).endpoint()
    );
    assert!(PrivacyFilter::new("x".to_string(), true).fail_open());
    assert!(!PrivacyFilter::new("x".to_string(), false).fail_open());
}

#[test]
fn empty_output_is_not_sent() {
    assert!(!PrivacyFilter::needs_redaction("", ""));
    assert!(PrivacyFilter::needs_redaction("x", ""));
    assert!(PrivacyFilter::needs_redaction("", "err"));
}

#[test]
fn usable_reply_replaces_output() {
    let f = PrivacyFilter::new("http://pf".to_string(), false);
    let r = f.filter_output(
        "token=abc".to_string(),
        "warn".to_string(),
        Some(vec!["token=[REDACTED]".to_string(), "warn".to_string()]),
    );
    assert_eq!(r, ("token=[REDACTED]".to_string(), "warn".to_string()));
}

#[test]
fn failure_fail_open_returns_raw() {
    let f = PrivacyFilter::new("http://pf".to_string(), true);
    assert_eq!(f.filter_output("out".to_string(), "err".to_string(), None), ("out".to_string(), "err".to_string()));
    assert_eq!(
        f.filter_output("out".to_string(), "err".to_string(), Some(vec!["only one".to_string()])),
        ("out".to_string(), "err".to_string())
    );
}

#[test]
fn failure_fail_closed_withholds() {
    let f = PrivacyFilter::new("http://pf".to_string(), false);
    let expected = (String::new(), "[privacy-filter unavailable; output withheld]".to_string());
    assert_eq!(f.filter_output("secret".to_string(), "e".to_string(), None), expected);
    assert_eq!(
        f.filter_output("other".to_string(), "".to_string(), Some(vec!["a".into(), "b".into(), "c".into()])),
        expected
    );
}
