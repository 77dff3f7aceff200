//! The settings of the portal.

use crate::ldap::ldap::LdapAttributes;
use crate::utils::text::{replace_first, replace_first_in};
use vstd::prelude::*;

verus! {

#[derive(Clone, Debug)]
pub struct ServerConfig {
    pub address: String,
    pub port: u16,
    pub workers: usize,
    pub log_level: String,
    pub keep_alive: u32,
    pub secret_key: String,
    pub files_dir: String,
}

#[derive(Clone, Debug)]
pub struct DatabaseConfig {
    /// The address of the database, with `{}` where the user name and then
    /// the password go.
    pub url: String,
    pub username: String,
    pub password: String,
}

#[derive(Clone, Debug)]
pub struct UnifiConfig {
    pub url: String,
    pub username: String,
    pub password: String,
}

#[derive(Clone, Debug)]
pub struct ClientsConfig {
    pub free_request: bool,
    /// Minutes of access granted to a device.
    pub time_connection: usize,
    /// Hours after which an access record is removed; `None` keeps records
    /// for ever.
    pub expiration_time: Option<usize>,
    pub info: Option<ClientInfo>,
}

/// The patterns that the fields of a connection form must match.
#[derive(Clone, Debug)]
pub struct ClientInfo {
    pub name_validated: Option<String>,
    pub email_validated: Option<String>,
    pub phone_validated: Option<String>,
    /// Names of further fields that must be present, each with its pattern.
    pub fields: Vec<(String, String)>,
}

#[derive(Clone, Debug)]
pub struct ApproversConfig {
    pub code_size: usize,
    /// Days for which an approval code is good; 0 for a code without end.
    pub validity_days_code: usize,
    pub just_numbers: bool,
    pub encrypted_code: bool,
    /// The kind of access that an approver taken over from the directory may
    /// grant; `None` where such an approver starts with none.
    pub default_type: Option<String>,
}

#[derive(Clone, Debug)]
pub struct AdminsConfig {
    pub token_expirantion: usize,
}

#[derive(Clone, Debug)]
pub struct UsersConfig {
    pub registrations_open: bool,
}

#[derive(Clone, Debug)]
pub struct LdapConfig {
    pub server: String,
    pub domain: String,
    pub base_dn: String,
    pub user_service: String,
    pub attrs: LdapAttributes,
    pub password: String,
    pub approvers_search: Vec<String>,
    pub users_search: Vec<String>,
    pub admins_search: Vec<String>,
}

#[derive(Clone, Debug)]
pub struct GLPIConfig {
    pub url: String,
    pub app_token: String,
    pub authorization: String,
    pub title_ticket: String,
    pub body_titcket: String,
    pub approver_message: String,
    pub reject_message: String,
    pub open_status_ticket: usize,
    pub close_status_ticket: usize,
    pub user_request_id: usize,
    pub ticket_category_id: usize,
    pub ticket_priority_id: usize,
    pub template_solution_id: usize,
}

#[derive(Clone, Debug)]
pub struct ConfigApplication {
    pub server: ServerConfig,
    pub unifi: UnifiConfig,
    pub database: DatabaseConfig,
    pub clients: ClientsConfig,
    pub approvers: ApproversConfig,
    pub admins: AdminsConfig,
    pub users: UsersConfig,
    pub ldap: Option<LdapConfig>,
    pub glpi: Option<GLPIConfig>,
}

/// A change of settings: each part that is present replaces the part of the
/// same name.
#[derive(Clone, Debug)]
pub struct ConfigUpdate {
    pub server: Option<ServerConfig>,
    pub unifi: Option<UnifiConfig>,
    pub database: Option<DatabaseConfig>,
    pub clients: Option<ClientsConfig>,
    pub approvers: Option<ApproversConfig>,
    pub admins: Option<AdminsConfig>,
    pub users: Option<UsersConfig>,
    pub ldap: Option<LdapConfig>,
    pub glpi: Option<GLPIConfig>,
}

/// `given` where it is present, else `kept`.
pub open spec fn replaced_by<T>(kept: T, given: Option<T>) -> T {
    match given {
        Some(new) => new,
        None => kept,
    }
}

fn take_or<T>(kept: T, given: Option<T>) -> (r: T)
    ensures
        r == replaced_by(kept, given),
{
    match given {
        Some(new) => new,
        None => kept,
    }
}

impl ConfigUpdate {
    /// Whether the change touches a part that is read only when the portal
    /// starts, so that it takes a restart to apply it.
    pub open spec fn needs_restart(self) -> bool {
        self.server is Some || self.unifi is Some || self.database is Some
    }
}

impl ConfigApplication {
    /// The settings after `update`: every part that `update` holds replaces
    /// the old one, an absent part leaves it as it is. The ticketing part is
    /// never changed this way.
    pub open spec fn updated(self, update: ConfigUpdate) -> ConfigApplication {
        ConfigApplication {
            server: replaced_by(self.server, update.server),
            unifi: replaced_by(self.unifi, update.unifi),
            database: replaced_by(self.database, update.database),
            clients: replaced_by(self.clients, update.clients),
            approvers: replaced_by(self.approvers, update.approvers),
            admins: replaced_by(self.admins, update.admins),
            users: replaced_by(self.users, update.users),
            ldap: match update.ldap {
                Some(l) => Some(l),
                None => self.ldap,
            },
            glpi: self.glpi,
        }
    }

    /// Applies `update` and tells whether the portal has to restart for it.
    pub fn apply_update(self, update: ConfigUpdate) -> (r: (ConfigApplication, bool))
        ensures
            r.0 == self.updated(update),
            r.1 == update.needs_restart(),
    {
        let restart: bool = update.server.is_some() || update.unifi.is_some()
            || update.database.is_some();
        let ldap: Option<LdapConfig> = match update.ldap {
            Some(l) => Some(l),
            None => self.ldap,
        };
        let next = ConfigApplication {
            server: take_or(self.server, update.server),
            unifi: take_or(self.unifi, update.unifi),
            database: take_or(self.database, update.database),
            clients: take_or(self.clients, update.clients),
            approvers: take_or(self.approvers, update.approvers),
            admins: take_or(self.admins, update.admins),
            users: take_or(self.users, update.users),
            ldap,
            glpi: self.glpi,
        };
        (next, restart)
    }
}

impl DatabaseConfig {
    /// The address with the first `{}` replaced by the user name and, in what
    /// that gives, the first `{}` replaced by the password.
    pub open spec fn formatted_url(self) -> Seq<char> {
        replace_first(replace_first(self.url@, "{}"@, self.username@), "{}"@, self.password@)
    }

    /// The address of the database with the user name and the password
    /// filled in.
    pub fn get_formated_url(&self) -> (url: String)
        ensures
            url@ == self.formatted_url(),
    {
        let with_user: String = replace_first_in(self.url.as_str(), "{}", self.username.as_str());
        replace_first_in(with_user.as_str(), "{}", self.password.as_str())
    }
}

} // verus!
