use conduit_web_demo::store::{
    build_server_row, default_port, generate_token, token_from_bytes, validate_server_input,
    validate_token_label, AuthKind, ServerDraft, ServerInput, StoreError, DEFAULT_USER_ID, TOKEN_BYTES,
};

fn input(kind: &str) -> ServerInput {
    ServerInput {
        alias: "  web-1 ".to_string(),
        host: "\t10.0.0.5\n".to_string(),
        port: default_port(),
        username: " root ".to_string(),
        auth_kind: kind.to_string(),
        secret: " s3cret ".to_string(),
        key_passphrase: Some(String::new()),
        certificate: Some("   ".to_string()),
        jump_host_alias: Some(String::new()),
        description: Some(" prod box ".to_string()),
        tags: None,
    }
}

#[test]
fn defaults() {
    assert_eq!(default_port(), 22);
    assert_eq!(DEFAULT_USER_ID, 1);
    assert_eq!(TOKEN_BYTES, 24);
}

#[test]
fn auth_kind_names() {
    assert_eq!(AuthKind::parse("password"), Some(AuthKind::Password));
    assert_eq!(AuthKind::parse("key"), Some(AuthKind::Key));
    assert_eq!(AuthKind::parse("cert"), Some(AuthKind::Cert));
    assert_eq!(AuthKind::parse("Cert"), None);
    assert_eq!(AuthKind::parse(" key"), None);
    assert_eq!(AuthKind::Cert.as_str(), "cert");
    assert_eq!(AuthKind::Password.as_str(), "password");
}

#[test]
fn invalid_auth_kind_is_reported_first() {
    let mut i = input("token");
    i.alias = "   ".to_string();
    match validate_server_input(&i) {
        Err(e) => assert_eq!(e.message(), "invalid auth_kind 'token' (password|key|cert)"),
        Ok(_) => panic!("accepted"),
    }
}

#[test]
fn blank_alias_or_host_is_refused() {
    let mut i = input("password");
    i.alias = " \t".to_string();
    let e = validate_server_input(&i).err().unwrap();
    assert!(matches!(e, StoreError::AliasAndHostRequired));
    assert_eq!(e.message(), "alias and host are required");
    let mut j = input("key");
    j.host = String::new();
    assert!(matches!(validate_server_input(&j), Err(StoreError::AliasAndHostRequired)));
}

#[test]
fn valid_input_is_normalised() {
    let d = validate_server_input(&input("password")).ok().unwrap();
    assert_eq!(d.alias, "web-1");
    assert_eq!(d.host, "10.0.0.5");
    assert_eq!(d.username, "root");
    assert_eq!(d.port, 22);
    assert_eq!(d.auth_kind, AuthKind::Password);
    assert_eq!(d.secret, " s3cret ");
    assert_eq!(d.key_passphrase, None);
    assert_eq!(d.certificate, None);
    assert_eq!(d.jump_host_alias, None);
    assert_eq!(d.description, Some(" prod box ".to_string()));
    assert_eq!(d.tags, None);
}

#[test]
fn optional_texts_kept_when_present() {
    let mut i = input("cert");
    i.key_passphrase = Some(" ".to_string());
    i.certificate = Some("ssh-ed25519-cert-v01 AAAA".to_string());
    i.tags = Some("a,b".to_string());
    i.port = 2222;
    let d = validate_server_input(&i).ok().unwrap();
    assert_eq!(d.key_passphrase, Some(" ".to_string()));
    assert_eq!(d.certificate, Some("ssh-ed25519-cert-v01 AAAA".to_string()));
    assert_eq!(d.tags, Some("a,b".to_string()));
    assert_eq!(d.port, 2222);
}

fn draft(kind: AuthKind, pass: bool, cert: bool) -> ServerDraft {
    ServerDraft {
        alias: "a".to_string(),
        host: "h".to_string(),
        port: 22,
        username: "u".to_string(),
        auth_kind: kind,
        secret: "s".to_string(),
        key_passphrase: if pass { Some("p".to_string()) } else { None },
        certificate: if cert { Some("c".to_string()) } else { None },
        jump_host_alias: None,
        description: Some("d".to_string()),
        tags: None,
    }
}

#[test]
fn encryption_errors_in_order() {
    let r = build_server_row(
        draft(AuthKind::Cert, true, false),
        Err("bad key".to_string()),
        Some(Err("p".to_string())),
        None,
    );
    assert_eq!(r.err().unwrap().message(), "encrypt secret: bad key");
    let r = build_server_row(
        draft(AuthKind::Key, true, true),
        Ok(vec![1]),
        Some(Err("boom".to_string())),
        Some(Err("c".to_string())),
    );
    assert_eq!(r.err().unwrap().message(), "encrypt passphrase: boom");
    let r = build_server_row(draft(AuthKind::Key, false, true), Ok(vec![1]), None, Some(Err("x".to_string())));
    assert_eq!(r.err().unwrap().message(), "encrypt certificate: x");
}

#[test]
fn cert_kind_needs_certificate() {
    let r = build_server_row(draft(AuthKind::Cert, false, false), Ok(vec![1, 2]), None, None);
    let e = r.err().unwrap();
    assert!(matches!(e, StoreError::CertificateRequired));
    assert_eq!(e.message(), "auth_kind=cert requires a certificate");
}

#[test]
fn row_carries_ciphertexts() {
    let row = build_server_row(
        draft(AuthKind::Cert, true, true),
        Ok(vec![9, 9]),
        Some(Ok(vec![7])),
        Some(Ok(vec![5, 5, 5])),
    )
    .ok()
    .unwrap();
    assert_eq!(row.alias, "a");
    assert_eq!(row.secret_enc, vec![9, 9]);
    assert_eq!(row.key_passphrase_enc, Some(vec![7]));
    assert_eq!(row.certificate_enc, Some(vec![5, 5, 5]));
    assert_eq!(row.auth_kind, AuthKind::Cert);
    assert_eq!(row.description, Some("d".to_string()));
}

#[test]
fn token_labels() {
    assert_eq!(validate_token_label("  laptop ").ok(), Some("laptop".to_string()));
    let e = validate_token_label(" \n").err().unwrap();
    assert!(matches!(e, StoreError::LabelRequired));
    assert_eq!(e.message(), "label is required");
}

#[test]
fn token_text_from_bytes() {
    let raw: Vec<u8> = (0u8..24).collect();
    assert_eq!(token_from_bytes(&raw), "cdt_000102030405060708090a0b0c0d0e0f1011121314151617");
    assert_eq!(token_from_bytes(&[0xde, 0xad, 0xbe, 0xef]), "cdt_deadbeef");
    assert_eq!(token_from_bytes(&[]), "cdt_");
    assert_ne!(token_from_bytes(&[1, 2]), token_from_bytes(&[1, 3]));
}

#[test]
fn generated_tokens_have_the_token_shape() {
    let a = generate_token().ok().unwrap();
    let b = generate_token().ok().unwrap();
    for t in [&a, &b] {
        assert_eq!(t.len(), 4 + 2 * TOKEN_BYTES);
        assert!(t.starts_with("cdt_"));
        assert!(t[4..].chars().all(|c| c.is_ascii_digit() || ('a'..='f').contains(&c)));
    }
    assert_ne!(a, b);
}
