use conduit_web_demo::policy::{PolicyError, WhitelistPolicy};

fn pats(p: &[&str]) -> Vec<String> {
    p.iter().map(|s| s.to_string()).collect()
}

#[test]
fn empty_allowlist_is_not_enforced() {
    let p = WhitelistPolicy::new(vec![]).ok().unwrap();
    assert!(!p.enforced());
    assert_eq!(p.snapshot(), (Vec::<String>::new(), false));
    assert!(p.authorize_exec(Ok(()), "rm -rf /tmp/x").is_ok());
    let blocked = p.authorize_exec(Err(PolicyError::Forbidden("blacklisted".to_string())), "ls");
    assert!(matches!(blocked, Err(PolicyError::Forbidden(m)) if m == "blacklisted"));
}

#[test]
fn allowlist_admits_only_matching_commands() {
    let p = WhitelistPolicy::new(pats(&["^ls\\b", "^cat "])).ok().unwrap();
    assert!(p.enforced());
    assert_eq!(p.snapshot(), (pats(&["^ls\\b", "^cat "]), true));
    assert!(p.authorize_exec(Ok(()), "ls -la").is_ok());
    assert!(p.authorize_exec(Ok(()), "cat /etc/hosts").is_ok());
    match p.authorize_exec(Ok(()), "rm -rf /") {
        Err(PolicyError::Forbidden(m)) => assert_eq!(m, "command not permitted by allowlist (2 patterns)"),
        other => panic!("unexpected {:?}", other),
    }
}

#[test]
fn blacklist_applies_even_with_allowlist() {
    let p = WhitelistPolicy::new(pats(&["^ls"])).ok().unwrap();
    let r = p.authorize_exec(Err(PolicyError::Forbidden("destructive".to_string())), "ls");
    assert!(matches!(r, Err(PolicyError::Forbidden(m)) if m == "destructive"));
}

#[test]
fn invalid_pattern_is_rejected() {
    match WhitelistPolicy::new(pats(&["ok", "("])) {
        Err(PolicyError::Invalid(m)) => {
            let e = regex::RegexSet::new(["ok", "("]).err().unwrap();
            assert_eq!(m, format!("allowlist regex: {e}"));
        }
        _ => panic!("accepted an invalid pattern"),
    }
}

#[test]
fn failed_reload_keeps_current_list() {
    let mut p = WhitelistPolicy::new(pats(&["^uptime$"])).ok().unwrap();
    assert!(p.reload(pats(&["[unclosed"])).is_err());
    assert_eq!(p.snapshot(), (pats(&["^uptime$"]), true));
    assert!(p.authorize_exec(Ok(()), "uptime").is_ok());
    assert!(p.reload(pats(&["^df"])).is_ok());
    assert_eq!(p.snapshot(), (pats(&["^df"]), true));
    assert!(p.authorize_exec(Ok(()), "uptime").is_err());
    assert!(p.reload(vec![]).is_ok());
    assert!(!p.enforced());
    assert!(p.authorize_exec(Ok(()), "uptime").is_ok());
}

#[test]
fn single_pattern_count_in_message() {
    let p = WhitelistPolicy::new(pats(&["^whoami$"])).ok().unwrap();
    match p.authorize_exec(Ok(()), "id") {
        Err(PolicyError::Forbidden(m)) => assert_eq!(m, "command not permitted by allowlist (1 patterns)"),
        _ => panic!(),
    }
}
