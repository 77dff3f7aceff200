use captive_portal::configurations::config::{
    AdminsConfig, ApproversConfig, ClientInfo as FormPatterns, ClientsConfig, ConfigApplication,
    DatabaseConfig, ServerConfig, UnifiConfig, UsersConfig,
};
use captive_portal::controllers::admin_controller::{
    admin_login, create_admin, get_admins, CreateAdminError,
};
use captive_portal::controllers::approver_controller::{
    approver_login, create_approver, create_approver_at, generator_approver_code,
    generator_approver_code_at, get_approvers, CodeRequestError, CreateApproverError,
};
use captive_portal::controllers::client_controller::{
    client_connection_api, client_connection_api_at, client_connection_approver,
    client_connection_approver_at, get_client_status, minutes_granted, AdminDecision, FormError,
    FormOutcome,
};
use captive_portal::controllers::user_controller::{
    create_user, get_users, login_user, user_client, CreateUserError,
};
use captive_portal::model::entity::admin::{Admin, AdminData, AdminLogin};
use captive_portal::model::entity::approver::{Approver, ApproverData, ApproverLogin};
use captive_portal::model::entity::client::{
    Client, ClientData, ClientInfo, ClientStatus, TransitionError,
};
use captive_portal::model::entity::user::{User, UserLogin};
use captive_portal::security::credential::{directory_verdict, LocalCredential, LoginDecision};
use captive_portal::security::hashing::{hash_secret, verify_secret};
use captive_portal::utils::clock::Timestamp;

const NOW: i64 = 1_700_000_000;
const TODAY: i64 = 1_699_920_000;

fn config(time_connection: usize, patterns: Option<FormPatterns>, encrypted: bool) -> ConfigApplication {
    ConfigApplication {
        server: ServerConfig {
            address: "0.0.0.0".to_string(),
            port: 8000,
            workers: 4,
            log_level: "normal".to_string(),
            keep_alive: 5,
            secret_key: "k".to_string(),
            files_dir: "static".to_string(),
        },
        unifi: UnifiConfig { url: "u".to_string(), username: "u".to_string(), password: "p".to_string() },
        database: DatabaseConfig {
            url: "d".to_string(),
            username: "u".to_string(),
            password: "p".to_string(),
        },
        clients: ClientsConfig {
            free_request: false,
            time_connection,
            expiration_time: None,
            info: patterns,
        },
        approvers: approvers_config(encrypted),
        admins: AdminsConfig { token_expirantion: 2 },
        users: UsersConfig { registrations_open: true },
        ldap: None,
        glpi: None,
    }
}

fn approvers_config(encrypted: bool) -> ApproversConfig {
    ApproversConfig {
        code_size: 6,
        validity_days_code: 2,
        just_numbers: false,
        encrypted_code: encrypted,
        default_type: None,
    }
}

fn approver(username: &str, password_hash: &str, code: &str) -> Approver {
    Approver {
        id: "ap1".to_string(),
        username: username.to_string(),
        email: "a@example.org".to_string(),
        password: password_hash.to_string(),
        secret_code: code.to_string(),
        approved_types: vec!["guest".to_string()],
        validity: None,
    }
}

fn form(code: Option<&str>) -> ClientData {
    ClientData {
        full_name: "Ann".to_string(),
        email: "ann@example.org".to_string(),
        phone: "555".to_string(),
        approver_code: code.map(|c| c.to_string()),
        fields: vec![],
    }
}

fn stored(status: ClientStatus) -> Client {
    let mut c = Client::new_at(Timestamp::from_secs(5));
    c.id = "c1".to_string();
    c.mac = "aa".to_string();
    c.site = "default".to_string();
    c.status = status;
    c
}

fn info(connect: bool) -> ClientInfo {
    ClientInfo {
        id: None,
        data: None,
        mac: "aa".to_string(),
        site: "default".to_string(),
        minutes: 30,
        connect,
    }
}

#[test]
fn credential_of_password_fields() {
    assert!(matches!(LocalCredential::from_password(""), LocalCredential::DirectoryBacked));
    match LocalCredential::from_password("hash") {
        LocalCredential::Password(h) => assert_eq!(h, "hash"),
        other => panic!("unexpected {:?}", other),
    }
    assert!(matches!(LocalCredential::from_optional(&None), LocalCredential::DirectoryBacked));
    match LocalCredential::from_optional(&Some(String::new())) {
        LocalCredential::Password(h) => assert_eq!(h, ""),
        other => panic!("unexpected {:?}", other),
    }
}

#[test]
fn directory_backed_never_accepts_a_password() {
    let c = LocalCredential::DirectoryBacked;
    assert_eq!(c.decide("anything", true), LoginDecision::AskDirectory);
    assert_eq!(c.decide("anything", false), LoginDecision::Rejected);
    assert_eq!(c.decide("", true), LoginDecision::AskDirectory);
    assert_eq!(directory_verdict(true), LoginDecision::Accepted);
    assert_eq!(directory_verdict(false), LoginDecision::Rejected);
}

#[test]
fn password_credential_accepts_its_password_only() {
    let c = LocalCredential::Password(hash_secret("s3cret").unwrap());
    assert_eq!(c.decide("s3cret", false), LoginDecision::Accepted);
    assert_eq!(c.decide("s3cret", true), LoginDecision::Accepted);
    assert_eq!(c.decide("other", true), LoginDecision::Rejected);
    let broken = LocalCredential::Password("no hash".to_string());
    assert_eq!(broken.decide("no hash", true), LoginDecision::Rejected);
}

#[test]
fn admin_login_decisions() {
    let data = AdminLogin { username: "root".to_string(), password: "pw".to_string() };
    assert_eq!(admin_login(None, &data, true), LoginDecision::Rejected);
    let mut admin = Admin {
        id: "a".to_string(),
        name: "Root".to_string(),
        username: "root".to_string(),
        password: None,
    };
    assert_eq!(admin_login(Some(&admin), &data, true), LoginDecision::AskDirectory);
    assert_eq!(admin_login(Some(&admin), &data, false), LoginDecision::Rejected);
    admin.password = Some(hash_secret("pw").unwrap());
    assert_eq!(admin_login(Some(&admin), &data, false), LoginDecision::Accepted);
    admin.password = Some(hash_secret("other").unwrap());
    assert_eq!(admin_login(Some(&admin), &data, true), LoginDecision::Rejected);
}

#[test]
fn create_admin_hashes_the_password() {
    let data = AdminData {
        name: "Root".to_string(),
        username: "root".to_string(),
        password: Some("pw".to_string()),
    };
    let admin = create_admin(data, false).unwrap();
    assert_eq!(admin.id, "");
    assert_eq!(admin.name, "Root");
    assert_eq!(admin.username, "root");
    let hash = admin.password.unwrap();
    assert_ne!(hash, "pw");
    assert!(verify_secret("pw", &hash));
}

#[test]
fn create_admin_errors() {
    let with = |password: Option<&str>| AdminData {
        name: "Root".to_string(),
        username: "root".to_string(),
        password: password.map(|p| p.to_string()),
    };
    assert_eq!(create_admin(with(Some("pw")), true).unwrap_err(), CreateAdminError::UsernameTaken);
    assert_eq!(create_admin(with(None), true).unwrap_err(), CreateAdminError::UsernameTaken);
    assert_eq!(create_admin(with(None), false).unwrap_err(), CreateAdminError::MissingPassword);
}

#[test]
fn admins_are_shown_without_passwords() {
    let admins = vec![
        Admin {
            id: "1".to_string(),
            name: "A".to_string(),
            username: "a".to_string(),
            password: Some("h".to_string()),
        },
        Admin { id: "2".to_string(), name: "B".to_string(), username: "b".to_string(), password: None },
    ];
    let shown = get_admins(admins);
    assert_eq!(shown.len(), 2);
    assert_eq!(shown[0].password, None);
    assert_eq!(shown[0].username, "a");
    assert_eq!(shown[1].id, "2");
}

#[test]
fn user_login_decisions() {
    let data = UserLogin { username: "u".to_string(), password: "pw".to_string() };
    assert_eq!(login_user(None, &data, true), LoginDecision::Rejected);
    let mut user = User {
        id: "u1".to_string(),
        username: "u".to_string(),
        password: String::new(),
        email: "u@example.org".to_string(),
        data: form(None),
    };
    assert_eq!(login_user(Some(&user), &data, true), LoginDecision::AskDirectory);
    // Without a directory a record without a password lets nobody in.
    assert_eq!(login_user(Some(&user), &data, false), LoginDecision::Rejected);
    user.password = hash_secret("pw").unwrap();
    assert_eq!(login_user(Some(&user), &data, false), LoginDecision::Accepted);
    let wrong = UserLogin { username: "u".to_string(), password: "nope".to_string() };
    assert_eq!(login_user(Some(&user), &wrong, true), LoginDecision::Rejected);
}

#[test]
fn user_client_is_approved_from_the_profile() {
    let user = User {
        id: "u1".to_string(),
        username: "u".to_string(),
        password: String::new(),
        email: "u@example.org".to_string(),
        data: form(None),
    };
    let c = user_client(&user, "aa".to_string(), "s".to_string(), 45, Timestamp::from_secs(9));
    assert_eq!(c.status, ClientStatus::Approved);
    assert_eq!(c.mac, "aa");
    assert_eq!(c.site, "s");
    assert_eq!(c.time_connection, 45);
    assert_eq!(c.full_name, "Ann");
    assert_eq!(c.approver, "---");
    assert_eq!(c.start_time.secs, 9);
}

#[test]
fn create_user_rules() {
    let user = |name: &str, email: &str, password: &str| User {
        id: String::new(),
        username: name.to_string(),
        password: password.to_string(),
        email: email.to_string(),
        data: form(None),
    };
    assert_eq!(
        create_user(user("ann", "ann@example.org", "secret"), false, false, false).unwrap_err(),
        CreateUserError::Closed
    );
    // All three fields too short.
    assert_eq!(
        create_user(user("an", "a@b.c", "12345"), false, true, false).unwrap_err(),
        CreateUserError::InvalidFields
    );
    assert_eq!(
        create_user(user("ann", "ann@example.org", "secret"), true, false, true).unwrap_err(),
        CreateUserError::UsernameTaken
    );
    // One long field is enough.
    let stored = create_user(user("ann", "a@b.c", "12345"), true, false, false).unwrap();
    assert_eq!(stored.username, "ann");
    assert_eq!(stored.email, "a@b.c");
    assert!(verify_secret("12345", &stored.password));
    let stored = create_user(user("an", "a@b.c", "123456"), false, true, false).unwrap();
    assert!(verify_secret("123456", &stored.password));
    // Lengths count bytes.
    let stored = create_user(user("éé", "a@b.c", "1"), false, true, false);
    assert!(stored.is_ok());
}

#[test]
fn users_are_shown_without_passwords() {
    let users = vec![User {
        id: "1".to_string(),
        username: "u".to_string(),
        password: "h".to_string(),
        email: "e".to_string(),
        data: form(None),
    }];
    let shown = get_users(users);
    assert_eq!(shown[0].password, "");
    assert_eq!(shown[0].username, "u");
    assert_eq!(shown[0].data.full_name, "Ann");
}

#[test]
fn approver_login_decisions() {
    let data = ApproverLogin { username: "ap".to_string(), password: "pw".to_string() };
    assert_eq!(approver_login(None, &data, true), LoginDecision::Rejected);
    let directory = approver("ap", "", "");
    assert_eq!(approver_login(Some(&directory), &data, true), LoginDecision::AskDirectory);
    assert_eq!(approver_login(Some(&directory), &data, false), LoginDecision::Rejected);
    let local = approver("ap", &hash_secret("pw").unwrap(), "");
    assert_eq!(approver_login(Some(&local), &data, false), LoginDecision::Accepted);
    let other = approver("ap", &hash_secret("else").unwrap(), "");
    assert_eq!(approver_login(Some(&other), &data, true), LoginDecision::Rejected);
}

#[test]
fn accepted_login_gets_a_code() {
    let mut a = approver("ap", "", "old");
    let code = generator_approver_code_at(
        &mut a,
        LoginDecision::Accepted,
        &approvers_config(true),
        Timestamp::from_secs(NOW),
    )
    .unwrap();
    assert_eq!(code.days, Some(2));
    assert_eq!(code.new_code.chars().count(), 6);
    assert!(verify_secret(&code.new_code, &a.secret_code));
    assert_eq!(a.validity, Some(Timestamp::from_secs(TODAY + 2 * 86_400)));
    let again = generator_approver_code(&mut a, LoginDecision::Accepted, &approvers_config(true));
    assert!(again.is_ok());
}

#[test]
fn other_logins_get_no_code() {
    for decision in [LoginDecision::Rejected, LoginDecision::AskDirectory] {
        let mut a = approver("ap", "", "old");
        a.validity = Some(Timestamp::from_secs(3));
        let r = generator_approver_code_at(
            &mut a,
            decision,
            &approvers_config(true),
            Timestamp::from_secs(NOW),
        );
        assert_eq!(r.unwrap_err(), CodeRequestError::InvalidLogin);
        assert_eq!(a.secret_code, "old");
        assert_eq!(a.validity, Some(Timestamp::from_secs(3)));
    }
}

#[test]
fn create_approver_hashes_code_and_password() {
    let data = ApproverData {
        username: "ap".to_string(),
        email: "ap@example.org".to_string(),
        password: "pw".to_string(),
        secret_code: "4711".to_string(),
    };
    let a = create_approver_at(data, false, &approvers_config(true), Timestamp::from_secs(NOW))
        .unwrap();
    assert_eq!(a.id, "");
    assert_eq!(a.username, "ap");
    assert_eq!(a.email, "ap@example.org");
    assert!(verify_secret("pw", &a.password));
    assert!(verify_secret("4711", &a.secret_code));
    assert!(a.approved_types.is_empty());
    assert_eq!(a.validity, Some(Timestamp::from_secs(TODAY + 2 * 86_400)));
    let data = ApproverData {
        username: "ap".to_string(),
        email: "ap@example.org".to_string(),
        password: "pw".to_string(),
        secret_code: "4711".to_string(),
    };
    assert_eq!(
        create_approver(data, true, &approvers_config(true)).unwrap_err(),
        CreateApproverError::UsernameTaken
    );
}

#[test]
fn approvers_are_shown_without_secrets() {
    let shown = get_approvers(vec![approver("ap", "hash", "code")]);
    assert_eq!(shown[0].password, "");
    assert_eq!(shown[0].secret_code, "");
    assert_eq!(shown[0].username, "ap");
    assert_eq!(shown[0].approved_types, vec!["guest".to_string()]);
}

#[test]
fn status_of_the_latest_record() {
    let mut a = stored(ClientStatus::Reject);
    a.start_time = Timestamp::from_secs(10);
    let mut b = stored(ClientStatus::Approved);
    b.start_time = Timestamp::from_secs(30);
    let mut c = stored(ClientStatus::Expired);
    c.start_time = Timestamp::from_secs(20);
    let mut other = stored(ClientStatus::Pending);
    other.mac = "bb".to_string();
    other.start_time = Timestamp::from_secs(99);
    let clients = vec![a, b, c, other];
    assert_eq!(get_client_status(&clients, "aa".to_string()), Some(ClientStatus::Approved));
    assert_eq!(get_client_status(&clients, "bb".to_string()), Some(ClientStatus::Pending));
    assert_eq!(get_client_status(&clients, "cc".to_string()), None);
    assert_eq!(get_client_status(&vec![], "aa".to_string()), None);
}

#[test]
fn status_of_records_started_together_is_the_last() {
    let a = stored(ClientStatus::Reject);
    let b = stored(ClientStatus::Approved);
    let c = stored(ClientStatus::Pending);
    assert_eq!(get_client_status(&vec![a, b, c], "aa".to_string()), Some(ClientStatus::Pending));
}

#[test]
fn administrator_approves_a_pending_record() {
    let d = client_connection_api_at(
        Some(stored(ClientStatus::Pending)),
        &info(true),
        "Root".to_string(),
        Timestamp::from_secs(NOW),
    );
    match d {
        AdminDecision::Approve(c) => {
            assert_eq!(c.status, ClientStatus::Approved);
            assert_eq!(c.approver, "Root");
            assert_eq!(c.start_time.secs, NOW);
            assert_eq!(c.id, "c1");
        }
        other => panic!("unexpected {:?}", other),
    }
}

#[test]
fn administrator_rejects_a_pending_record() {
    let d = client_connection_api_at(
        Some(stored(ClientStatus::Pending)),
        &info(false),
        "Root".to_string(),
        Timestamp::from_secs(NOW),
    );
    match d {
        AdminDecision::Reject(c) => {
            assert_eq!(c.status, ClientStatus::Reject);
            assert_eq!(c.approver, "---");
            assert_eq!(c.start_time.secs, 5);
        }
        other => panic!("unexpected {:?}", other),
    }
}

#[test]
fn final_records_take_no_decision() {
    for status in [ClientStatus::Reject, ClientStatus::Expired, ClientStatus::Approved] {
        let d = client_connection_api_at(
            Some(stored(status)),
            &info(true),
            "Root".to_string(),
            Timestamp::from_secs(NOW),
        );
        match d {
            AdminDecision::Refused(e) => assert_eq!(
                e,
                TransitionError::NotAllowed { from: status, to: ClientStatus::Approved }
            ),
            other => panic!("unexpected {:?}", other),
        }
        let d = client_connection_api(Some(stored(status)), &info(false), "Root".to_string());
        assert!(matches!(d, AdminDecision::Refused(_)));
    }
}

#[test]
fn administrator_decides_on_a_device_without_record() {
    let d = client_connection_api_at(None, &info(true), "Root".to_string(), Timestamp::from_secs(NOW));
    match d {
        AdminDecision::ApproveNew(c) => {
            assert_eq!(c.status, ClientStatus::Approved);
            assert_eq!(c.approver, "Root");
            assert_eq!(c.mac, "aa");
            assert_eq!(c.site, "default");
            assert_eq!(c.time_connection, 30);
            assert_eq!(c.start_time.secs, NOW);
            assert_eq!(c.id, "");
        }
        other => panic!("unexpected {:?}", other),
    }
    let d = client_connection_api(None, &info(false), "Root".to_string());
    match d {
        AdminDecision::Deny { site, mac } => {
            assert_eq!(site, "default");
            assert_eq!(mac, "aa");
        }
        other => panic!("unexpected {:?}", other),
    }
}

#[test]
fn approval_needs_an_administrator_with_a_name() {
    let d = client_connection_api_at(None, &info(true), String::new(), Timestamp::from_secs(NOW));
    assert!(matches!(d, AdminDecision::Refused(TransitionError::MissingApprover)));
    let d = client_connection_api_at(
        Some(stored(ClientStatus::Pending)),
        &info(true),
        String::new(),
        Timestamp::from_secs(NOW),
    );
    assert!(matches!(d, AdminDecision::Refused(TransitionError::MissingApprover)));
}

#[test]
fn form_without_code_is_pending() {
    let r = client_connection_approver_at(
        form(None),
        &config(180, None, false),
        "aa".to_string(),
        "default".to_string(),
        &vec![],
        Timestamp::from_secs(NOW),
    );
    match r {
        Ok(FormOutcome::Pending(c)) => {
            assert_eq!(c.status, ClientStatus::Pending);
            assert_eq!(c.mac, "aa");
            assert_eq!(c.site, "default");
            assert_eq!(c.time_connection, 180);
            assert_eq!(c.full_name, "Ann");
            assert_eq!(c.approver, "---");
            assert_eq!(c.start_time.secs, NOW);
        }
        other => panic!("unexpected {:?}", other),
    }
}

#[test]
fn form_with_good_code_is_approved_in_the_approvers_name() {
    let approvers = vec![approver("boss", "", "4711")];
    let r = client_connection_approver_at(
        form(Some("4711")),
        &config(60, None, false),
        "aa".to_string(),
        "default".to_string(),
        &approvers,
        Timestamp::from_secs(NOW),
    );
    match r {
        Ok(FormOutcome::Connect(c)) => {
            assert_eq!(c.status, ClientStatus::Approved);
            assert_eq!(c.approver, "boss");
            assert_eq!(c.time_connection, 60);
            assert_eq!(c.mac, "aa");
        }
        other => panic!("unexpected {:?}", other),
    }
    let hashed = vec![approver("boss", "", &hash_secret("4711").unwrap())];
    let r = client_connection_approver(
        form(Some("4711")),
        &config(60, None, true),
        "aa".to_string(),
        "default".to_string(),
        &hashed,
    );
    assert!(matches!(r, Ok(FormOutcome::Connect(_))));
}

#[test]
fn form_with_bad_code_or_bad_entry_is_turned_down() {
    let approvers = vec![approver("boss", "", "4711")];
    let r = client_connection_approver_at(
        form(Some("0000")),
        &config(60, None, false),
        "aa".to_string(),
        "default".to_string(),
        &approvers,
        Timestamp::from_secs(NOW),
    );
    assert_eq!(r.unwrap_err(), FormError::InvalidCode);
    // An approver without a name stands behind nothing.
    let nameless = vec![approver("", "", "4711")];
    let r = client_connection_approver_at(
        form(Some("4711")),
        &config(60, None, false),
        "aa".to_string(),
        "default".to_string(),
        &nameless,
        Timestamp::from_secs(NOW),
    );
    assert_eq!(r.unwrap_err(), FormError::InvalidCode);
    let patterns = FormPatterns {
        name_validated: Some("^[0-9]+$".to_string()),
        email_validated: None,
        phone_validated: None,
        fields: vec![],
    };
    let r = client_connection_approver_at(
        form(Some("4711")),
        &config(60, Some(patterns), false),
        "aa".to_string(),
        "default".to_string(),
        &approvers,
        Timestamp::from_secs(NOW),
    );
    assert_eq!(r.unwrap_err(), FormError::InvalidForm);
}

#[test]
fn minutes_granted_by_the_settings() {
    assert_eq!(minutes_granted(&config(180, None, false)), 180);
    assert_eq!(minutes_granted(&config(65_535, None, false)), 65_535);
    assert_eq!(minutes_granted(&config(65_536, None, false)), 0);
    assert_eq!(minutes_granted(&config(65_536 + 7, None, false)), 7);
}

#[test]
fn granted_minutes_wrap_at_sixteen_bits() {
    let r = client_connection_approver_at(
        form(None),
        &config(65_536 + 7, None, false),
        "aa".to_string(),
        "default".to_string(),
        &vec![],
        Timestamp::from_secs(NOW),
    );
    match r {
        Ok(FormOutcome::Pending(c)) => assert_eq!(c.time_connection, 7),
        other => panic!("unexpected {:?}", other),
    }
}
