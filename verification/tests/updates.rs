use captive_portal::configurations::config::ApproversConfig;
use captive_portal::controllers::admin_controller::{
    admin_with_password, change_admin, update_admin, CreateAdminError, UpdateAdminError,
};
use captive_portal::controllers::approver_controller::{
    approver_with_hashes, change_approver, update_approver, update_approver_at,
    CreateApproverError,
};
use captive_portal::controllers::user_controller::{
    change_user, update_user, user_with_password, CreateUserError,
};
use captive_portal::model::entity::admin::{Admin, AdminData};
use captive_portal::model::entity::approver::{Approver, ApproverData, ApproverUpdate};
use captive_portal::security::hashing::HashError;
use captive_portal::model::entity::client::ClientData;
use captive_portal::model::entity::user::{User, UserUpdate};
use captive_portal::security::hashing::verify_secret;
use captive_portal::utils::clock::Timestamp;

fn settings(days: usize) -> ApproversConfig {
    ApproversConfig {
        code_size: 6,
        validity_days_code: days,
        just_numbers: true,
        encrypted_code: true,
        default_type: None,
    }
}

fn approver() -> Approver {
    Approver {
        id: "ap1".to_string(),
        username: "ap".to_string(),
        email: "old@example.org".to_string(),
        password: "oldhash".to_string(),
        secret_code: "oldcode".to_string(),
        approved_types: vec!["guest".to_string()],
        validity: Some(Timestamp::from_secs(9)),
    }
}

fn profile(name: &str) -> ClientData {
    ClientData {
        full_name: name.to_string(),
        email: String::new(),
        phone: String::new(),
        approver_code: None,
        fields: vec![],
    }
}

fn user(password: &str) -> User {
    User {
        id: "u1".to_string(),
        username: "u".to_string(),
        password: password.to_string(),
        email: "old@example.org".to_string(),
        data: profile("Old"),
    }
}

#[test]
fn approver_update_replaces_what_is_given() {
    let mut a = approver();
    let update = ApproverUpdate {
        email: Some("new@example.org".to_string()),
        password: Some("pw".to_string()),
        secret_code: Some("4711".to_string()),
    };
    update_approver_at(&mut a, update, &settings(1), Timestamp::from_secs(1_700_000_000)).unwrap();
    assert_eq!(a.id, "ap1");
    assert_eq!(a.username, "ap");
    assert_eq!(a.email, "new@example.org");
    assert!(verify_secret("pw", &a.password));
    assert!(verify_secret("4711", &a.secret_code));
    assert_eq!(a.validity, Some(Timestamp::from_secs(1_699_920_000 + 86_400)));
    assert_eq!(a.approved_types, vec!["guest".to_string()]);
}

#[test]
fn approver_update_without_code_keeps_code_and_validity() {
    let mut a = approver();
    let update = ApproverUpdate { email: None, password: None, secret_code: None };
    update_approver(&mut a, update, &settings(1)).unwrap();
    assert_eq!(a.email, "old@example.org");
    assert_eq!(a.password, "oldhash");
    assert_eq!(a.secret_code, "oldcode");
    assert_eq!(a.validity, Some(Timestamp::from_secs(9)));
    let update = ApproverUpdate { email: None, password: None, secret_code: Some("1".to_string()) };
    update_approver_at(&mut a, update, &settings(0), Timestamp::from_secs(5)).unwrap();
    assert_eq!(a.validity, None);
    assert_eq!(a.password, "oldhash");
}

#[test]
fn user_with_password_takes_all_changes() {
    let mut u = user("oldhash");
    let update = UserUpdate {
        password: Some("secret".to_string()),
        email: Some("new@example.org".to_string()),
        data: Some(profile("New")),
    };
    update_user(&mut u, update).unwrap();
    assert!(verify_secret("secret", &u.password));
    assert_eq!(u.email, "new@example.org");
    assert_eq!(u.data.full_name, "New");
    assert_eq!(u.username, "u");
    let update = UserUpdate { password: None, email: None, data: None };
    let before = u.password.clone();
    update_user(&mut u, update).unwrap();
    assert_eq!(u.password, before);
    assert_eq!(u.email, "new@example.org");
    assert_eq!(u.data.full_name, "New");
}

#[test]
fn directory_user_takes_the_profile_only() {
    let mut u = user("");
    let update = UserUpdate {
        password: Some("secret".to_string()),
        email: Some("new@example.org".to_string()),
        data: Some(profile("New")),
    };
    update_user(&mut u, update).unwrap();
    assert_eq!(u.password, "");
    assert_eq!(u.email, "old@example.org");
    assert_eq!(u.data.full_name, "New");
}

#[test]
fn admin_update_rules() {
    let stored = || Admin {
        id: "a1".to_string(),
        name: "Old".to_string(),
        username: "root".to_string(),
        password: Some("oldhash".to_string()),
    };
    let change = |username: &str, password: Option<&str>| AdminData {
        name: "New".to_string(),
        username: username.to_string(),
        password: password.map(|p| p.to_string()),
    };
    // Same user name: that it is taken (by this record) does not matter.
    let mut a = stored();
    assert_eq!(update_admin(&mut a, change("root", None), true), Ok(()));
    assert_eq!(a.name, "New");
    assert_eq!(a.username, "root");
    assert_eq!(a.password, Some("oldhash".to_string()));
    // New user name that is taken.
    let mut a = stored();
    assert_eq!(
        update_admin(&mut a, change("other", Some("pw")), true),
        Err(UpdateAdminError::UsernameTaken)
    );
    assert_eq!(a.name, "Old");
    assert_eq!(a.username, "root");
    assert_eq!(a.password, Some("oldhash".to_string()));
    // New user name that is free, with a new password.
    let mut a = stored();
    assert_eq!(update_admin(&mut a, change("other", Some("pw")), false), Ok(()));
    assert_eq!(a.username, "other");
    assert_eq!(a.id, "a1");
    assert!(verify_secret("pw", a.password.as_ref().unwrap()));
}

#[test]
fn changes_that_need_no_hash_always_go_through() {
    let mut a = approver();
    let update = ApproverUpdate {
        email: Some("only@example.org".to_string()),
        password: None,
        secret_code: None,
    };
    assert_eq!(update_approver(&mut a, update, &settings(3)), Ok(()));
    assert_eq!(a.email, "only@example.org");
    assert_eq!(a.password, "oldhash");
    assert_eq!(a.secret_code, "oldcode");
    assert_eq!(a.validity, Some(Timestamp::from_secs(9)));

    let mut u = user("oldhash");
    let update = UserUpdate {
        password: None,
        email: Some("only@example.org".to_string()),
        data: None,
    };
    assert_eq!(update_user(&mut u, update), Ok(()));
    assert_eq!(u.email, "only@example.org");
    assert_eq!(u.password, "oldhash");
    assert_eq!(u.data.full_name, "Old");
}

#[test]
fn admin_change_follows_the_outcome_of_hashing() {
    let stored = || Admin {
        id: "a1".to_string(),
        name: "Old".to_string(),
        username: "root".to_string(),
        password: Some("oldhash".to_string()),
    };
    let change = || AdminData {
        name: "New".to_string(),
        username: "other".to_string(),
        password: Some("pw".to_string()),
    };
    let mut a = stored();
    assert_eq!(change_admin(&mut a, change(), Some(Ok("HASH".to_string()))), Ok(()));
    assert_eq!(a.name, "New");
    assert_eq!(a.username, "other");
    assert_eq!(a.password, Some("HASH".to_string()));
    assert_eq!(a.id, "a1");
    let mut a = stored();
    assert_eq!(change_admin(&mut a, change(), None), Ok(()));
    assert_eq!(a.name, "New");
    assert_eq!(a.password, Some("oldhash".to_string()));
    let mut a = stored();
    assert_eq!(
        change_admin(&mut a, change(), Some(Err(HashError::Unavailable))),
        Err(UpdateAdminError::HashUnavailable)
    );
    assert_eq!(a.name, "Old");
    assert_eq!(a.username, "root");
    assert_eq!(a.password, Some("oldhash".to_string()));
}

#[test]
fn new_admin_follows_the_outcome_of_hashing() {
    let a = admin_with_password("N".to_string(), "u".to_string(), Ok("HASH".to_string())).unwrap();
    assert_eq!(a.id, "");
    assert_eq!(a.name, "N");
    assert_eq!(a.username, "u");
    assert_eq!(a.password, Some("HASH".to_string()));
    assert_eq!(
        admin_with_password("N".to_string(), "u".to_string(), Err(HashError::Unavailable))
            .unwrap_err(),
        CreateAdminError::HashUnavailable
    );
}

#[test]
fn user_change_follows_the_outcome_of_hashing() {
    let update = || UserUpdate {
        password: Some("secret".to_string()),
        email: Some("new@example.org".to_string()),
        data: Some(profile("New")),
    };
    let mut u = user("oldhash");
    assert_eq!(change_user(&mut u, update(), Some(Ok("HASH".to_string()))), Ok(()));
    assert_eq!(u.password, "HASH");
    assert_eq!(u.email, "new@example.org");
    assert_eq!(u.data.full_name, "New");
    let mut u = user("oldhash");
    assert_eq!(change_user(&mut u, update(), None), Ok(()));
    assert_eq!(u.password, "oldhash");
    assert_eq!(u.email, "new@example.org");
    let mut u = user("oldhash");
    assert_eq!(
        change_user(&mut u, update(), Some(Err(HashError::Unavailable))),
        Err(HashError::Unavailable)
    );
    assert_eq!(u.password, "oldhash");
    assert_eq!(u.email, "old@example.org");
    assert_eq!(u.data.full_name, "Old");
    // A user of the directory takes the profile whatever the outcome.
    let mut u = user("");
    assert_eq!(change_user(&mut u, update(), Some(Err(HashError::Unavailable))), Ok(()));
    assert_eq!(u.password, "");
    assert_eq!(u.email, "old@example.org");
    assert_eq!(u.data.full_name, "New");
    let mut u = user("");
    assert_eq!(change_user(&mut u, update(), Some(Ok("HASH".to_string()))), Ok(()));
    assert_eq!(u.password, "");
}

#[test]
fn new_user_follows_the_outcome_of_hashing() {
    let stored = user_with_password(user("plain"), Ok("HASH".to_string())).unwrap();
    assert_eq!(stored.password, "HASH");
    assert_eq!(stored.username, "u");
    assert_eq!(stored.email, "old@example.org");
    assert_eq!(
        user_with_password(user("plain"), Err(HashError::Unavailable)).unwrap_err(),
        CreateUserError::HashUnavailable
    );
}

#[test]
fn approver_change_follows_the_outcomes_of_hashing() {
    let now = Timestamp::from_secs(1_700_000_000);
    let update = || ApproverUpdate {
        email: Some("new@example.org".to_string()),
        password: Some("pw".to_string()),
        secret_code: Some("4711".to_string()),
    };
    let mut a = approver();
    let r = change_approver(
        &mut a,
        update(),
        Some(Ok("PW".to_string())),
        Some(Ok("CODE".to_string())),
        1,
        now,
    );
    assert_eq!(r, Ok(()));
    assert_eq!(a.email, "new@example.org");
    assert_eq!(a.password, "PW");
    assert_eq!(a.secret_code, "CODE");
    assert_eq!(a.validity, Some(Timestamp::from_secs(1_699_920_000 + 86_400)));
    // Only a password: code and validity stay.
    let mut a = approver();
    let r = change_approver(&mut a, update(), Some(Ok("PW".to_string())), None, 1, now);
    assert_eq!(r, Ok(()));
    assert_eq!(a.password, "PW");
    assert_eq!(a.secret_code, "oldcode");
    assert_eq!(a.validity, Some(Timestamp::from_secs(9)));
    // A failure of either leaves the record as it is.
    for (password, code) in [
        (Some(Err(HashError::Unavailable)), Some(Ok("CODE".to_string()))),
        (Some(Ok("PW".to_string())), Some(Err(HashError::Unavailable))),
        (None, Some(Err(HashError::Unavailable))),
    ] {
        let mut a = approver();
        assert_eq!(
            change_approver(&mut a, update(), password, code, 1, now),
            Err(HashError::Unavailable)
        );
        assert_eq!(a.email, "old@example.org");
        assert_eq!(a.password, "oldhash");
        assert_eq!(a.secret_code, "oldcode");
        assert_eq!(a.validity, Some(Timestamp::from_secs(9)));
    }
}

#[test]
fn new_approver_follows_the_outcomes_of_hashing() {
    let now = Timestamp::from_secs(1_700_000_000);
    let data = || ApproverData {
        username: "ap".to_string(),
        email: "ap@example.org".to_string(),
        password: "pw".to_string(),
        secret_code: "4711".to_string(),
    };
    let a = approver_with_hashes(data(), Ok("CODE".to_string()), Ok("PW".to_string()), 2, now)
        .unwrap();
    assert_eq!(a.id, "");
    assert_eq!(a.username, "ap");
    assert_eq!(a.email, "ap@example.org");
    assert_eq!(a.password, "PW");
    assert_eq!(a.secret_code, "CODE");
    assert!(a.approved_types.is_empty());
    assert_eq!(a.validity, Some(Timestamp::from_secs(1_699_920_000 + 2 * 86_400)));
    let a = approver_with_hashes(data(), Ok("CODE".to_string()), Ok("PW".to_string()), 0, now)
        .unwrap();
    assert_eq!(a.validity, None);
    assert_eq!(
        approver_with_hashes(data(), Err(HashError::Unavailable), Ok("PW".to_string()), 2, now)
            .unwrap_err(),
        CreateApproverError::HashUnavailable
    );
    assert_eq!(
        approver_with_hashes(data(), Ok("CODE".to_string()), Err(HashError::Unavailable), 2, now)
            .unwrap_err(),
        CreateApproverError::HashUnavailable
    );
}
