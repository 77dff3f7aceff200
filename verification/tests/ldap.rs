use captive_portal::configurations::config::LdapConfig;
use captive_portal::ldap::ldap::{
    make_filter, AuthAction, AuthReply, DirectoryEntry, LdapAttributes, LdapConnection,
};

fn conn() -> LdapConnection {
    LdapConnection::new(LdapConfig {
        server: "ldap://dc".to_string(),
        domain: "example.org".to_string(),
        base_dn: "dc=example,dc=org".to_string(),
        user_service: "svc".to_string(),
        attrs: LdapAttributes {
            name: "cn".to_string(),
            username: "uid".to_string(),
            email: "mail".to_string(),
            member: "member".to_string(),
            group: "groupName".to_string(),
            login: "sAMAccountName".to_string(),
        },
        password: "svcpw".to_string(),
        approvers_search: vec![],
        users_search: vec![],
        admins_search: vec![],
    })
}

fn entry(dn: &str, attrs: &[(&str, &[&str])]) -> DirectoryEntry {
    DirectoryEntry {
        dn: dn.to_string(),
        attrs: attrs
            .iter()
            .map(|(k, vs)| (k.to_string(), vs.iter().map(|v| v.to_string()).collect()))
            .collect(),
    }
}

#[test]
fn filters() {
    assert_eq!(make_filter("cn", "staff"), "(cn=staff)");
    assert_eq!(make_filter("", ""), "(=)");
    assert_eq!(conn().group_filter("approvers"), "(groupName=approvers)");
    assert_eq!(conn().login_filter("jdoe"), "(sAMAccountName=jdoe)");
}

#[test]
fn attribute_values() {
    let e = entry("cn=x", &[("a", &["1", "2"]), ("b", &[]), ("a", &["3"])]);
    assert_eq!(e.values("a"), Some(&vec!["1".to_string(), "2".to_string()]));
    assert_eq!(e.values("b"), Some(&vec![]));
    assert_eq!(e.values("c"), None);
    assert_eq!(e.first("a"), Some("1".to_string()));
    assert_eq!(e.first("b"), None);
    assert_eq!(e.first("c"), None);
}

#[test]
fn group_members_entry_after_entry() {
    let entries = vec![
        entry("cn=g1", &[("member", &["cn=a", "cn=b"])]),
        entry("cn=g2", &[("other", &["cn=x"])]),
        entry("cn=g3", &[("member", &["cn=c"])]),
    ];
    assert_eq!(
        conn().get_users_in_group(&entries),
        vec!["cn=a".to_string(), "cn=b".to_string(), "cn=c".to_string()]
    );
    assert!(conn().get_users_in_group(&vec![]).is_empty());
}

#[test]
fn user_details_take_first_values() {
    let entries = vec![
        entry(
            "cn=jdoe",
            &[("uid", &["jdoe", "john"]), ("cn", &["John Doe"]), ("mail", &["j@example.org"])],
        ),
        entry("cn=other", &[("uid", &["other"])]),
    ];
    let user = conn().get_user_details(&entries).unwrap();
    assert_eq!(user.username, "jdoe");
    assert_eq!(user.name, "John Doe");
    assert_eq!(user.email, "j@example.org");
}

#[test]
fn user_details_fall_back() {
    let user = conn().get_user_details(&vec![entry("cn=x", &[("uid", &[])])]).unwrap();
    assert_eq!(user.username, "---");
    assert_eq!(user.name, "Desconhecido");
    assert_eq!(user.email, "");
    assert!(conn().get_user_details(&vec![]).is_none());
}

#[test]
fn empty_login_or_password_is_denied_at_once() {
    assert!(matches!(conn().simple_authentication("", "pw"), AuthAction::Deny));
    assert!(matches!(conn().simple_authentication("jdoe", ""), AuthAction::Deny));
    assert!(matches!(conn().simple_authentication("", ""), AuthAction::Deny));
}

#[test]
fn login_runs_through_bind_search_bind() {
    let c = conn();
    let first = c.simple_authentication("jdoe", "pw");
    match &first {
        AuthAction::BindService { username, password } => {
            assert_eq!(username, "svc");
            assert_eq!(password, "svcpw");
        }
        other => panic!("unexpected {:?}", other),
    }
    let second = c.continue_authentication(&first, AuthReply::Bound, "jdoe", "pw");
    match &second {
        AuthAction::SearchLogin { base_dn, filter } => {
            assert_eq!(base_dn, "dc=example,dc=org");
            assert_eq!(filter, "(sAMAccountName=jdoe)");
        }
        other => panic!("unexpected {:?}", other),
    }
    let third = c.continue_authentication(
        &second,
        AuthReply::Found(vec!["cn=jdoe,dc=example".to_string(), "cn=other".to_string()]),
        "jdoe",
        "pw",
    );
    match &third {
        AuthAction::BindUser { dn, password } => {
            assert_eq!(dn, "cn=jdoe,dc=example");
            assert_eq!(password, "pw");
        }
        other => panic!("unexpected {:?}", other),
    }
    let last = c.continue_authentication(&third, AuthReply::Bound, "jdoe", "pw");
    assert!(matches!(last, AuthAction::Grant));
}

#[test]
fn any_failure_denies() {
    let c = conn();
    let bind = c.simple_authentication("jdoe", "pw");
    assert!(matches!(
        c.continue_authentication(&bind, AuthReply::Failed, "jdoe", "pw"),
        AuthAction::Deny
    ));
    assert!(matches!(
        c.continue_authentication(&bind, AuthReply::Found(vec!["x".to_string()]), "jdoe", "pw"),
        AuthAction::Deny
    ));
    let search = c.continue_authentication(&bind, AuthReply::Bound, "jdoe", "pw");
    assert!(matches!(
        c.continue_authentication(&search, AuthReply::Failed, "jdoe", "pw"),
        AuthAction::Deny
    ));
    assert!(matches!(
        c.continue_authentication(&search, AuthReply::Found(vec![]), "jdoe", "pw"),
        AuthAction::Deny
    ));
    assert!(matches!(
        c.continue_authentication(&search, AuthReply::Bound, "jdoe", "pw"),
        AuthAction::Deny
    ));
    let user = c.continue_authentication(
        &search,
        AuthReply::Found(vec!["cn=j".to_string()]),
        "jdoe",
        "pw",
    );
    assert!(matches!(
        c.continue_authentication(&user, AuthReply::Failed, "jdoe", "pw"),
        AuthAction::Deny
    ));
    assert!(matches!(
        c.continue_authentication(&AuthAction::Deny, AuthReply::Bound, "jdoe", "pw"),
        AuthAction::Deny
    ));
    assert!(matches!(
        c.continue_authentication(&AuthAction::Grant, AuthReply::Bound, "jdoe", "pw"),
        AuthAction::Deny
    ));
}
