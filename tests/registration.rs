use hytopia_reg::availability::{contains_text, username_available};
use hytopia_reg::batch::{batch_report, outcome_line, TaskFailure};
use hytopia_reg::endpoint::{availability_url, registration_form, push_escaped};
use hytopia_reg::get_url;
use hytopia_reg::pairing::{pair_identities, pairing_len, ConfigError, Identity};
use hytopia_reg::session::{Hytopia, SessionError};

fn strings(v: &[&str]) -> Vec<String> {
    v.iter().map(|s| s.to_string()).collect()
}

fn names_for(emails: &[&str], proxies: &[&str]) -> Vec<String> {
    (0..pairing_len(emails.len(), proxies.len()))
        .map(|i| format!("name{i}"))
        .collect()
}

fn pair(emails: &[&str], proxies: &[&str], referral: Option<&str>) -> Result<Vec<Identity>, ConfigError> {
    pair_identities(
        &strings(emails),
        &strings(proxies),
        &referral.map(String::from),
        &names_for(emails, proxies),
    )
}

#[test]
fn default_url_without_referral() {
    assert_eq!(get_url(None), "https://preregister.hytopia.com/?_data=routes/_index");
}

#[test]
fn referral_url() {
    assert_eq!(
        get_url(Some("abc".to_string())),
        "https://preregister.hytopia.com/abc/?_data=player-by-referrer"
    );
}

#[test]
fn availability_query_appends_username() {
    assert_eq!(
        availability_url(None, "elf"),
        "https://preregister.hytopia.com/?_data=routes/_index&username=elf"
    );
    assert_eq!(
        availability_url(Some("abc".to_string()), "elf"),
        "https://preregister.hytopia.com/abc/?_data=player-by-referrer&username=elf"
    );
}

#[test]
fn available_when_marker_present() {
    assert!(username_available("{\"usernameAvailable\":true,\"x\":1}"));
}

#[test]
fn unavailable_when_marker_false() {
    assert!(!username_available("{\"usernameAvailable\":false}"));
}

#[test]
fn unavailable_when_marker_missing() {
    assert!(!username_available("{\"error\":\"not found\"}"));
    assert!(!username_available(""));
}

#[test]
fn substring_search_edges() {
    assert!(contains_text("abc", ""));
    assert!(contains_text("abc", "abc"));
    assert!(contains_text("xxabc", "abc"));
    assert!(!contains_text("ab", "abc"));
    assert!(!contains_text("abxc", "abc"));
}

#[test]
fn form_keeps_plain_values_verbatim() {
    assert_eq!(
        registration_form("Elrond", "a@x.com", "tok.en_1"),
        "username=Elrond&email=a@x.com&g-recaptcha-response=tok.en_1"
    );
}

#[test]
fn form_escapes_separators() {
    assert_eq!(
        registration_form("a&b", "c+d@x.com", "e=f%"),
        "username=a%26b&email=c%2Bd@x.com&g-recaptcha-response=e%3Df%25"
    );
    let mut out = String::from(">");
    push_escaped(&mut out, "é&");
    assert_eq!(out, ">é%26");
}

#[test]
fn pairing_without_proxies_gives_one_identity_per_email() {
    let ids = pair(&["a@x.com", "b@x.com", "c@x.com"], &[], Some("ref")).unwrap();
    assert_eq!(ids.len(), 3);
    for (i, id) in ids.iter().enumerate() {
        assert_eq!(id.proxy, None);
        assert_eq!(id.username, format!("name{i}"));
        assert_eq!(id.referral.as_deref(), Some("ref"));
    }
    assert_eq!(ids[2].email, "c@x.com");
}

#[test]
fn pairing_drops_emails_past_the_last_proxy() {
    let ids = pair(&["a@x.com", "b@x.com", "c@x.com"], &["http://p1:1", "http://p2:2"], None).unwrap();
    assert_eq!(ids.len(), 2);
    assert_eq!(ids[0].email, "a@x.com");
    assert_eq!(ids[0].proxy.as_deref(), Some("http://p1:1"));
    assert_eq!(ids[1].email, "b@x.com");
    assert_eq!(ids[1].proxy.as_deref(), Some("http://p2:2"));
    assert_eq!(ids[1].referral, None);
}

#[test]
fn pairing_by_position_with_enough_proxies() {
    let ids = pair(&["a@x.com", "b@x.com"], &["http://p1:1", "http://p2:2", "http://p3:3"], None).unwrap();
    assert_eq!(ids.len(), 2);
    assert_eq!(ids[0].proxy.as_deref(), Some("http://p1:1"));
    assert_eq!(ids[1].proxy.as_deref(), Some("http://p2:2"));
    assert_eq!(ids[1].email, "b@x.com");
}

#[test]
fn pairing_refuses_empty_email_list() {
    assert_eq!(pair(&[], &["http://p1:1"], None).unwrap_err(), ConfigError::NoEmails);
    assert_eq!(pair(&[], &[], None).unwrap_err(), ConfigError::NoEmails);
}

#[test]
fn pairing_len_rule() {
    assert_eq!(pairing_len(3, 0), 3);
    assert_eq!(pairing_len(3, 2), 2);
    assert_eq!(pairing_len(2, 5), 2);
    assert_eq!(pairing_len(0, 0), 0);
}

#[test]
fn session_builds_requests_of_its_identity() {
    let s = Hytopia::new(
        "Elrond".to_string(),
        "a@x.com".to_string(),
        Some("abc".to_string()),
        Some("http://127.0.0.1:8080".to_string()),
    )
    .unwrap();
    assert_eq!(s.username(), "Elrond");
    assert_eq!(s.email(), "a@x.com");
    assert_eq!(
        s.registration_url(),
        "https://preregister.hytopia.com/abc/?_data=player-by-referrer"
    );
    assert_eq!(
        s.registration_body("T"),
        "username=Elrond&email=a@x.com&g-recaptcha-response=T"
    );
    assert_eq!(
        s.availability_url(),
        "https://preregister.hytopia.com/abc/?_data=player-by-referrer&username=Elrond"
    );
}

#[test]
fn session_refuses_malformed_proxy() {
    let r = Hytopia::new(
        "Elrond".to_string(),
        "a@x.com".to_string(),
        None,
        Some("http://[::1".to_string()),
    );
    let e = r.unwrap_err();
    assert!(matches!(e, SessionError::InvalidProxy(_)));
    assert_eq!(e.failure(), TaskFailure::ProxyParse);
}

#[test]
fn session_from_identity_without_proxy() {
    let ids = pair(&["a@x.com"], &[], None).unwrap();
    let s = Hytopia::from_identity(&ids[0]).unwrap();
    assert_eq!(s.email(), "a@x.com");
    assert_eq!(s.username(), "name0");
    assert_eq!(s.registration_url(), "https://preregister.hytopia.com/?_data=routes/_index");
}

#[test]
fn report_lines_name_email_and_failure() {
    assert_eq!(outcome_line("a@x.com", &Ok(())), "Client a@x.com registered");
    assert_eq!(
        outcome_line("a@x.com", &Err(TaskFailure::ProxyParse)),
        "Client a@x.com failed: proxy parse error"
    );
    assert_eq!(
        outcome_line("a@x.com", &Err(TaskFailure::ClientBuild)),
        "Client a@x.com failed: client build error"
    );
    assert_eq!(
        outcome_line("a@x.com", &Err(TaskFailure::Challenge)),
        "Client a@x.com failed: challenge error"
    );
    assert_eq!(
        outcome_line("a@x.com", &Err(TaskFailure::Transport)),
        "Client a@x.com failed: transport error"
    );
}

#[test]
fn one_failed_task_leaves_the_others_reported() {
    let emails = strings(&["a@x.com", "b@x.com", "c@x.com"]);
    let outcomes = vec![Ok(()), Err(TaskFailure::Transport), Ok(())];
    let lines = batch_report(&emails, &outcomes);
    assert_eq!(
        lines,
        vec![
            "Client a@x.com registered".to_string(),
            "Client b@x.com failed: transport error".to_string(),
            "Client c@x.com registered".to_string(),
        ]
    );
}

#[test]
fn two_emails_no_proxies_default_endpoint() {
    let ids = pair(&["a@x.com", "b@x.com"], &[], None).unwrap();
    assert_eq!(ids.len(), 2);
    let mut lines = Vec::new();
    for id in &ids {
        assert_eq!(id.proxy, None);
        assert!(!id.username.is_empty());
        let s = Hytopia::from_identity(id).unwrap();
        assert_eq!(s.registration_url(), "https://preregister.hytopia.com/?_data=routes/_index");
        lines.push(s.email().to_string());
    }
    let outcomes = vec![Err(TaskFailure::Transport), Ok(())];
    let report = batch_report(&lines, &outcomes);
    assert_eq!(report[0], "Client a@x.com failed: transport error");
    assert_eq!(report[1], "Client b@x.com registered");
}
