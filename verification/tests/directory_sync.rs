use captive_portal::configurations::config::{ApproversConfig, LdapConfig};
use captive_portal::ldap::ldap::{LdapAttributes, LdapUser};
use captive_portal::model::entity::admin::Admin;
use captive_portal::model::entity::approver::Approver;
use captive_portal::model::entity::user::User;
use captive_portal::security::approval_code::validate_code_at;
use captive_portal::utils::clock::Timestamp;
use captive_portal::utils::membership::{diff_members, LocalAccount};
use captive_portal::utils::monitoring::LdapMonitoring;

const NOW: i64 = 1_700_000_000;
const TODAY: i64 = 1_699_920_000;

fn ldap_config() -> LdapConfig {
    LdapConfig {
        server: "ldap://dc".to_string(),
        domain: "example.org".to_string(),
        base_dn: "dc=example,dc=org".to_string(),
        user_service: "svc".to_string(),
        attrs: LdapAttributes {
            name: "cn".to_string(),
            username: "uid".to_string(),
            email: "mail".to_string(),
            member: "member".to_string(),
            group: "cn".to_string(),
            login: "uid".to_string(),
        },
        password: "svcpw".to_string(),
        approvers_search: vec!["approvers".to_string()],
        users_search: vec!["users".to_string()],
        admins_search: vec!["admins".to_string()],
    }
}

fn approvers_config(days: usize, default_type: Option<&str>) -> ApproversConfig {
    ApproversConfig {
        code_size: 8,
        validity_days_code: days,
        just_numbers: true,
        encrypted_code: true,
        default_type: default_type.map(|s| s.to_string()),
    }
}

fn member(username: &str) -> LdapUser {
    LdapUser {
        username: username.to_string(),
        name: format!("Name of {}", username),
        email: format!("{}@example.org", username),
    }
}

fn approver(id: &str, username: &str, password: &str) -> Approver {
    Approver {
        id: id.to_string(),
        username: username.to_string(),
        email: String::new(),
        password: password.to_string(),
        secret_code: "x".to_string(),
        approved_types: vec![],
        validity: None,
    }
}

fn account(id: &str, username: &str, directory_backed: bool) -> LocalAccount {
    LocalAccount { id: id.to_string(), username: username.to_string(), directory_backed }
}

#[test]
fn diff_finds_missing_and_stale() {
    let accounts = vec![
        account("1", "ann", true),
        account("2", "bob", true),
        account("3", "cid", false),
        account("4", "dan", true),
    ];
    let members = vec![member("bob"), member("eve"), member("cid")];
    let diff = diff_members(&accounts, &members);
    // eve has no account; cid's account has a password and takes no part.
    assert_eq!(diff.missing, vec![1, 2]);
    assert_eq!(diff.stale, vec!["1".to_string(), "4".to_string()]);
}

#[test]
fn diff_of_nothing() {
    let diff = diff_members(&vec![], &vec![]);
    assert!(diff.missing.is_empty());
    assert!(diff.stale.is_empty());
    let diff = diff_members(&vec![account("1", "ann", true)], &vec![]);
    assert_eq!(diff.stale, vec!["1".to_string()]);
    let diff = diff_members(&vec![], &vec![member("ann")]);
    assert_eq!(diff.missing, vec![0]);
}

#[test]
fn a_member_listed_twice_accounts_for_one_record_each_time() {
    // The second listing finds no record waiting and asks for a new one.
    let diff = diff_members(&vec![account("1", "ann", true)], &vec![member("ann"), member("ann")]);
    assert_eq!(diff.missing, vec![1]);
    assert!(diff.stale.is_empty());
    // Two records of the name: each listing accounts for one, in order.
    let accounts = vec![account("1", "ann", true), account("2", "ann", true)];
    let diff = diff_members(&accounts, &vec![member("ann")]);
    assert!(diff.missing.is_empty());
    assert_eq!(diff.stale, vec!["2".to_string()]);
    let diff = diff_members(&accounts, &vec![member("ann"), member("ann")]);
    assert!(diff.missing.is_empty());
    assert!(diff.stale.is_empty());
}

#[test]
fn absent_approver_is_deleted_and_new_member_enrolled() {
    let m = LdapMonitoring::new(ldap_config());
    let local = vec![
        approver("id-gone", "gone", ""),
        approver("id-stays", "stays", ""),
        approver("id-local", "local", "$2b$hash"),
    ];
    let members = vec![member("stays"), member("fresh")];
    let plan = m.scan_approvers_at(
        &local,
        &members,
        &approvers_config(1, Some("guest")),
        Timestamp::from_secs(NOW),
    );
    assert_eq!(plan.delete, vec!["id-gone".to_string()]);
    assert_eq!(plan.create.len(), 1);
    let created = plan.create[0].as_ref().unwrap();
    assert_eq!(created.id, "");
    assert_eq!(created.username, "fresh");
    assert_eq!(created.email, "fresh@example.org");
    assert_eq!(created.password, "");
    assert!(created.secret_code.starts_with("$2"));
    assert_eq!(created.validity, Some(Timestamp::from_secs(TODAY + 86_400)));
    assert_eq!(created.approved_types, vec!["guest".to_string()]);
}

#[test]
fn enrolled_approver_without_end_and_without_scope() {
    let plan = LdapMonitoring::new(ldap_config()).scan_approvers_at(
        &vec![],
        &vec![member("fresh")],
        &approvers_config(0, None),
        Timestamp::from_secs(NOW),
    );
    let created = plan.create[0].as_ref().unwrap();
    assert_eq!(created.validity, None);
    assert!(created.approved_types.is_empty());
    assert!(!created.secret_code.is_empty());
}

#[test]
fn enroll_issues_a_code_that_nobody_knows() {
    let created = LdapMonitoring::enroll_at(
        &member("fresh"),
        &approvers_config(2, None),
        Timestamp::from_secs(NOW),
    )
    .unwrap();
    assert_eq!(created.validity, Some(Timestamp::from_secs(TODAY + 2 * 86_400)));
    // The stored text is a hash, not a code.
    let stored = created.secret_code.clone();
    assert_eq!(
        validate_code_at(&stored, &vec![created], None, true, Timestamp::from_secs(NOW)),
        None
    );
}

#[test]
fn records_with_passwords_are_never_touched() {
    let m = LdapMonitoring::new(ldap_config());
    let local = vec![approver("id-local", "local", "$2b$hash")];
    let plan = m.scan_approvers_at(
        &local,
        &vec![],
        &approvers_config(1, None),
        Timestamp::from_secs(NOW),
    );
    assert!(plan.delete.is_empty());
    assert!(plan.create.is_empty());
    // A member of the same name still gets a record of its own.
    let plan = m.scan_approvers(&local, &vec![member("local")], &approvers_config(1, None));
    assert!(plan.delete.is_empty());
    assert_eq!(plan.create.len(), 1);
    let created = plan.create[0].as_ref().unwrap();
    assert_eq!(created.password, "");
    assert!(created.validity.unwrap().secs % 86_400 == 0);
}

#[test]
fn users_follow_the_directory() {
    let m = LdapMonitoring::new(ldap_config());
    let mut kept = User::new_with_ldap_user(&member("kept"));
    kept.id = "u1".to_string();
    let mut gone = User::new_with_ldap_user(&member("gone"));
    gone.id = "u2".to_string();
    let mut local = User::new_with_ldap_user(&member("pw"));
    local.id = "u3".to_string();
    local.password = "hash".to_string();
    let plan = m.scan_users(&vec![kept, gone, local], &vec![member("new"), member("kept")]);
    assert_eq!(plan.delete, vec!["u2".to_string()]);
    assert_eq!(plan.create.len(), 1);
    assert_eq!(plan.create[0].username, "new");
    assert_eq!(plan.create[0].email, "new@example.org");
    assert_eq!(plan.create[0].data.full_name, "Name of new");
    assert_eq!(plan.create[0].password, "");
    assert_eq!(plan.create[0].id, "");
}

#[test]
fn admins_follow_the_directory() {
    let m = LdapMonitoring::new(ldap_config());
    let mut kept = Admin::new_with_ldap_user(&member("kept"));
    kept.id = "a1".to_string();
    let mut gone = Admin::new_with_ldap_user(&member("gone"));
    gone.id = "a2".to_string();
    let mut local = Admin::new_with_ldap_user(&member("root"));
    local.id = "a3".to_string();
    local.password = Some("hash".to_string());
    let plan = m.scan_admins(&vec![gone, local, kept], &vec![member("kept"), member("new")]);
    assert_eq!(plan.delete, vec!["a2".to_string()]);
    assert_eq!(plan.create.len(), 1);
    assert_eq!(plan.create[0].username, "new");
    assert_eq!(plan.create[0].name, "Name of new");
    assert_eq!(plan.create[0].password, None);
}

#[test]
fn members_of_answered_groups_are_put_together() {
    let groups = vec![
        Some(vec![member("a"), member("b")]),
        None,
        Some(vec![]),
        Some(vec![member("c")]),
    ];
    let members = LdapMonitoring::resolved(groups);
    let names: Vec<String> = members.into_iter().map(|m| m.username).collect();
    assert_eq!(names, vec!["a".to_string(), "b".to_string(), "c".to_string()]);
    assert!(LdapMonitoring::resolved(vec![]).is_empty());
    assert!(LdapMonitoring::resolved(vec![None]).is_empty());
}

#[test]
fn monitoring_keeps_its_settings() {
    let m = LdapMonitoring::new(ldap_config());
    assert_eq!(m.config.approvers_search, vec!["approvers".to_string()]);
    assert_eq!(m.config.server, "ldap://dc");
}
