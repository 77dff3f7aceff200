use captive_portal::model::entity::approver::Approver;
use captive_portal::security::approval_code::{
    issue_code, issue_code_at, validate_code, validate_code_at,
};
use captive_portal::security::hashing::{hash_secret, verify_secret, HashError};
use captive_portal::utils::clock::Timestamp;

// 2023-11-14 22:13:20; the day starts at 1_699_920_000.
const NOW: i64 = 1_700_000_000;
const TODAY: i64 = 1_699_920_000;

fn approver(username: &str, scopes: &[&str]) -> Approver {
    Approver {
        id: String::new(),
        username: username.to_string(),
        email: format!("{}@example.org", username),
        password: String::new(),
        secret_code: String::new(),
        approved_types: scopes.iter().map(|s| s.to_string()).collect(),
        validity: None,
    }
}

fn plain(username: &str, code: &str, scopes: &[&str], validity: Option<i64>) -> Approver {
    let mut a = approver(username, scopes);
    a.secret_code = code.to_string();
    a.validity = validity.map(Timestamp::from_secs);
    a
}

#[test]
fn issue_stores_hash_and_midnight_validity() {
    let mut a = approver("u1", &["guest"]);
    let code = issue_code_at(&mut a, 8, true, 1, Timestamp::from_secs(NOW)).unwrap();
    assert_eq!(code.chars().count(), 8);
    assert!(code.chars().all(|c| c.is_ascii_digit()));
    assert_ne!(a.secret_code, code);
    assert!(verify_secret(&code, &a.secret_code));
    assert_eq!(a.validity, Some(Timestamp::from_secs(TODAY + 86_400)));
    assert_eq!(a.username, "u1");
    assert_eq!(a.approved_types, vec!["guest".to_string()]);
    assert_eq!(a.password, "");
}

#[test]
fn issue_for_seven_days() {
    let mut a = approver("u1", &[]);
    issue_code_at(&mut a, 6, false, 7, Timestamp::from_secs(NOW)).unwrap();
    assert_eq!(a.validity, Some(Timestamp::from_secs(TODAY + 7 * 86_400)));
}

#[test]
fn issue_for_zero_days_clears_validity() {
    let mut a = approver("u1", &[]);
    a.validity = Some(Timestamp::from_secs(5));
    let code = issue_code_at(&mut a, 4, true, 0, Timestamp::from_secs(NOW)).unwrap();
    assert_eq!(a.validity, None);
    assert!(verify_secret(&code, &a.secret_code));
}

#[test]
fn issue_now_sets_a_midnight_after_now() {
    let mut a = approver("u1", &[]);
    let before = Timestamp::now();
    let code = issue_code(&mut a, 8, true, 1).unwrap();
    let end = a.validity.unwrap();
    assert_eq!(end.secs % 86_400, 0);
    assert!(end.secs > before.secs);
    assert!(end.secs <= before.secs + 2 * 86_400);
    assert_eq!(
        validate_code(code, &vec![a], None, true),
        Some("u1".to_string())
    );
}

#[test]
fn end_to_end_issue_then_validate() {
    let mut a = approver("u1", &["guest"]);
    let issued_at = Timestamp::from_secs(NOW);
    let code = issue_code_at(&mut a, 8, true, 1, issued_at).unwrap();
    let approvers = vec![a];
    // Within the same day.
    let later = Timestamp::from_secs(NOW + 600);
    assert_eq!(
        validate_code_at(&code, &approvers, Some("guest"), true, later),
        Some("u1".to_string())
    );
    assert_eq!(validate_code_at(&code, &approvers, Some("staff"), true, later), None);
    // Two days on.
    let day_plus_two = Timestamp::from_secs(NOW + 2 * 86_400);
    assert_eq!(
        validate_code_at(&code, &approvers, Some("guest"), true, day_plus_two),
        None
    );
}

#[test]
fn wrong_code_is_not_found() {
    let mut a = approver("u1", &["guest"]);
    let code = issue_code_at(&mut a, 8, true, 1, Timestamp::from_secs(NOW)).unwrap();
    let other = if code == "00000000" { "11111111" } else { "00000000" };
    assert_eq!(
        validate_code_at(other, &vec![a], Some("guest"), true, Timestamp::from_secs(NOW)),
        None
    );
}

#[test]
fn same_code_different_scopes_selects_by_scope() {
    let hash_a = hash_secret("4711").unwrap();
    let hash_b = hash_secret("4711").unwrap();
    let mut a = approver("alice", &["guest"]);
    a.secret_code = hash_a;
    let mut b = approver("bob", &["staff"]);
    b.secret_code = hash_b;
    let approvers = vec![a, b];
    let now = Timestamp::from_secs(NOW);
    assert_eq!(
        validate_code_at("4711", &approvers, Some("guest"), true, now),
        Some("alice".to_string())
    );
    assert_eq!(
        validate_code_at("4711", &approvers, Some("staff"), true, now),
        Some("bob".to_string())
    );
    assert_eq!(validate_code_at("4711", &approvers, Some("other"), true, now), None);
    // Without a scope the first in the list answers.
    assert_eq!(
        validate_code_at("4711", &approvers, None, true, now),
        Some("alice".to_string())
    );
}

#[test]
fn expired_approver_is_never_returned() {
    let approvers = vec![
        plain("old", "c", &["guest"], Some(NOW - 1)),
        plain("good", "c", &["guest"], Some(NOW + 1)),
    ];
    let now = Timestamp::from_secs(NOW);
    assert_eq!(
        validate_code_at("c", &approvers, Some("guest"), false, now),
        Some("good".to_string())
    );
    assert_eq!(
        validate_code_at("c", &approvers, None, false, now),
        Some("good".to_string())
    );
}

#[test]
fn unscoped_validation_honors_expiry() {
    let approvers = vec![plain("old", "c", &[], Some(NOW - 86_400))];
    assert_eq!(
        validate_code_at("c", &approvers, None, false, Timestamp::from_secs(NOW)),
        None
    );
}

#[test]
fn validity_must_lie_strictly_after_now() {
    let approvers = vec![plain("edge", "c", &[], Some(NOW))];
    assert_eq!(
        validate_code_at("c", &approvers, None, false, Timestamp::from_secs(NOW)),
        None
    );
    assert_eq!(
        validate_code_at("c", &approvers, None, false, Timestamp::from_secs(NOW - 1)),
        Some("edge".to_string())
    );
}

#[test]
fn code_without_end_stays_good() {
    let approvers = vec![plain("forever", "c", &[], None)];
    assert_eq!(
        validate_code_at("c", &approvers, None, false, Timestamp::from_secs(NOW + 1_000_000_000)),
        Some("forever".to_string())
    );
}

#[test]
fn plain_codes_are_compared_letter_by_letter() {
    let approvers = vec![plain("a", "abc", &[], None), plain("b", "abd", &[], None)];
    let now = Timestamp::from_secs(NOW);
    assert_eq!(validate_code_at("abd", &approvers, None, false, now), Some("b".to_string()));
    assert_eq!(validate_code_at("ab", &approvers, None, false, now), None);
    // A plain code is no hash: hashed comparison finds nobody.
    assert_eq!(validate_code_at("abc", &approvers, None, true, now), None);
}

#[test]
fn nobody_answers_for_an_empty_population() {
    assert_eq!(
        validate_code_at("c", &vec![], None, false, Timestamp::from_secs(NOW)),
        None
    );
    assert_eq!(validate_code("c".to_string(), &vec![], Some("guest"), true), None);
}

#[test]
fn validate_now_uses_the_clock() {
    let far = Timestamp::now().secs + 10 * 86_400;
    let approvers = vec![
        plain("gone", "c", &["guest"], Some(1_000)),
        plain("good", "c", &["guest"], Some(far)),
    ];
    assert_eq!(
        validate_code("c".to_string(), &approvers, Some("guest"), false),
        Some("good".to_string())
    );
}

#[test]
fn store_code_sets_code_and_validity() {
    let mut a = approver("u", &["x"]);
    a.store_code("HASH".to_string(), 2, Timestamp::from_secs(NOW));
    assert_eq!(a.secret_code, "HASH");
    assert_eq!(a.validity, Some(Timestamp::from_secs(TODAY + 2 * 86_400)));
    assert_eq!(a.approved_types, vec!["x".to_string()]);
}

#[test]
fn accepted_hash_is_stored_and_the_code_goes_back() {
    let mut a = approver("u", &["x"]);
    let r = a.accept_code("4711".to_string(), Ok("HASH".to_string()), 1, Timestamp::from_secs(NOW));
    assert_eq!(r, Ok("4711".to_string()));
    assert_eq!(a.secret_code, "HASH");
    assert_eq!(a.validity, Some(Timestamp::from_secs(TODAY + 86_400)));
    assert_eq!(a.username, "u");
}

#[test]
fn without_a_hash_the_record_stays() {
    let mut a = approver("u", &["x"]);
    a.secret_code = "OLD".to_string();
    a.validity = Some(Timestamp::from_secs(3));
    let r = a.accept_code(
        "4711".to_string(),
        Err(HashError::Unavailable),
        1,
        Timestamp::from_secs(NOW),
    );
    assert_eq!(r, Err(HashError::Unavailable));
    assert_eq!(a.secret_code, "OLD");
    assert_eq!(a.validity, Some(Timestamp::from_secs(3)));
}
