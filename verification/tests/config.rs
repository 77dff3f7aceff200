use captive_portal::configurations::config::{
    AdminsConfig, ApproversConfig, ClientsConfig, ConfigApplication, ConfigUpdate, DatabaseConfig,
    LdapConfig, ServerConfig, UnifiConfig, UsersConfig,
};
use captive_portal::ldap::ldap::{LdapAttributes, LdapConnection};

fn sample_config() -> ConfigApplication {
    ConfigApplication {
        server: ServerConfig {
            address: "0.0.0.0".to_string(),
            port: 8000,
            workers: 4,
            log_level: "normal".to_string(),
            keep_alive: 5,
            secret_key: "k".to_string(),
            files_dir: "static".to_string(),
        },
        unifi: UnifiConfig {
            url: "https://unifi/api".to_string(),
            username: "u".to_string(),
            password: "p".to_string(),
        },
        database: DatabaseConfig {
            url: "mongodb://{}:{}@db/portal".to_string(),
            username: "user".to_string(),
            password: "secret".to_string(),
        },
        clients: ClientsConfig {
            free_request: false,
            time_connection: 180,
            expiration_time: None,
            info: None,
        },
        approvers: ApproversConfig {
            code_size: 8,
            validity_days_code: 1,
            just_numbers: true,
            encrypted_code: true,
            default_type: None,
        },
        admins: AdminsConfig { token_expirantion: 2 },
        users: UsersConfig { registrations_open: true },
        ldap: None,
        glpi: None,
    }
}

fn sample_ldap() -> LdapConfig {
    LdapConfig {
        server: "ldap://dc".to_string(),
        domain: "example.org".to_string(),
        base_dn: "dc=example,dc=org".to_string(),
        user_service: "svc".to_string(),
        attrs: LdapAttributes {
            name: "cn".to_string(),
            username: "sAMAccountName".to_string(),
            email: "mail".to_string(),
            member: "member".to_string(),
            group: "cn".to_string(),
            login: "sAMAccountName".to_string(),
        },
        password: "svcpw".to_string(),
        approvers_search: vec!["approvers".to_string()],
        users_search: vec![],
        admins_search: vec![],
    }
}

#[test]
fn formatted_url_fills_user_then_password() {
    let db = DatabaseConfig {
        url: "mongodb://{}:{}@db/portal".to_string(),
        username: "user".to_string(),
        password: "secret".to_string(),
    };
    assert_eq!(db.get_formated_url(), "mongodb://user:secret@db/portal");
}

#[test]
fn formatted_url_with_one_placeholder_takes_the_user() {
    let db = DatabaseConfig {
        url: "mongodb://{}@db".to_string(),
        username: "user".to_string(),
        password: "secret".to_string(),
    };
    assert_eq!(db.get_formated_url(), "mongodb://user@db");
}

#[test]
fn formatted_url_without_placeholder_is_unchanged() {
    let db = DatabaseConfig {
        url: "mongodb://db".to_string(),
        username: "user".to_string(),
        password: "secret".to_string(),
    };
    assert_eq!(db.get_formated_url(), "mongodb://db");
}

#[test]
fn formatted_url_placeholder_in_user_name_takes_the_password() {
    let db = DatabaseConfig {
        url: "x{}y{}z".to_string(),
        username: "{}".to_string(),
        password: "P".to_string(),
    };
    assert_eq!(db.get_formated_url(), "xPy{}z");
}

#[test]
fn update_replaces_present_parts_only() {
    let config = sample_config();
    let update = ConfigUpdate {
        server: None,
        unifi: None,
        database: None,
        clients: Some(ClientsConfig {
            free_request: true,
            time_connection: 60,
            expiration_time: Some(24),
            info: None,
        }),
        approvers: None,
        admins: Some(AdminsConfig { token_expirantion: 9 }),
        users: None,
        ldap: Some(sample_ldap()),
        glpi: None,
    };
    let (next, restart) = config.apply_update(update);
    assert!(!restart);
    assert!(next.clients.free_request);
    assert_eq!(next.clients.time_connection, 60);
    assert_eq!(next.clients.expiration_time, Some(24));
    assert_eq!(next.admins.token_expirantion, 9);
    assert_eq!(next.approvers.code_size, 8);
    assert_eq!(next.server.port, 8000);
    assert_eq!(next.database.username, "user");
    assert_eq!(next.ldap.unwrap().server, "ldap://dc");
}

#[test]
fn update_of_server_unifi_or_database_needs_restart() {
    let mut update = ConfigUpdate {
        server: None,
        unifi: Some(UnifiConfig {
            url: "https://other".to_string(),
            username: "a".to_string(),
            password: "b".to_string(),
        }),
        database: None,
        clients: None,
        approvers: None,
        admins: None,
        users: None,
        ldap: None,
        glpi: None,
    };
    let (next, restart) = sample_config().apply_update(update.clone());
    assert!(restart);
    assert_eq!(next.unifi.url, "https://other");
    assert!(next.ldap.is_none());

    update.unifi = None;
    update.database = Some(DatabaseConfig {
        url: "x".to_string(),
        username: "y".to_string(),
        password: "z".to_string(),
    });
    assert!(sample_config().apply_update(update.clone()).1);

    update.database = None;
    assert!(!sample_config().apply_update(update.clone()).1);
    update.server = Some(sample_config().server);
    assert!(sample_config().apply_update(update).1);
}

#[test]
fn update_without_ldap_keeps_ldap() {
    let mut config = sample_config();
    config.ldap = Some(sample_ldap());
    let update = ConfigUpdate {
        server: None,
        unifi: None,
        database: None,
        clients: None,
        approvers: None,
        admins: None,
        users: None,
        ldap: None,
        glpi: None,
    };
    let (next, _) = config.apply_update(update);
    assert_eq!(next.ldap.unwrap().user_service, "svc");
}

#[test]
fn ldap_connection_takes_over_the_settings() {
    let conn = LdapConnection::new(sample_ldap());
    assert_eq!(conn.username, "svc");
    assert_eq!(conn.password, "svcpw");
    assert_eq!(conn.domain, "example.org");
    assert_eq!(conn.server, "ldap://dc");
    assert_eq!(conn.base_dn, "dc=example,dc=org");
    assert_eq!(conn.attributes.member, "member");
    assert_eq!(conn.attributes.login, "sAMAccountName");
}
