//! The directory: how it is reached, what a member looks like, and the
//! decisions taken while talking to it.

use crate::configurations::config::LdapConfig;
use crate::utils::text::{join3, same_text};
use vstd::prelude::*;
use vstd::string::*;

verus! {

/// How to reach the directory and which attributes to read there.
pub struct LdapConnection {
    pub username: String,
    pub password: String,
    pub domain: String,
    pub server: String,
    pub base_dn: String,
    pub attributes: LdapAttributes,
}

/// The names of the directory attributes that carry what the portal reads.
#[derive(Clone, Debug)]
pub struct LdapAttributes {
    pub name: String,
    pub username: String,
    pub email: String,
    pub member: String,
    pub group: String,
    pub login: String,
}

/// A member of a directory group.
#[derive(Debug)]
pub struct LdapUser {
    pub username: String,
    pub name: String,
    pub email: String,
}

impl LdapConnection {
    /// The connection that `config` describes: the service account binds at
    /// `config.server` and searches below `config.base_dn`.
    pub fn new(config: LdapConfig) -> (conn: Self)
        ensures
            conn.username == config.user_service,
            conn.password == config.password,
            conn.domain == config.domain,
            conn.server == config.server,
            conn.base_dn == config.base_dn,
            conn.attributes == config.attrs,
    {
        Self {
            username: config.user_service,
            password: config.password,
            domain: config.domain,
            server: config.server,
            base_dn: config.base_dn,
            attributes: config.attrs,
        }
    }
}

/// An entry that a search of the directory found: its distinguished name
/// and its attributes, each with its values.
#[derive(Debug)]
pub struct DirectoryEntry {
    pub dn: String,
    pub attrs: Vec<(String, Vec<String>)>,
}

/// What the caller has to do next to check a login at the directory.
#[derive(Debug)]
pub enum AuthAction {
    /// The login is refused.
    Deny,
    /// The login is good.
    Grant,
    /// Connect and bind as the service account.
    BindService { username: String, password: String },
    /// Search below `base_dn` for the entry of the person.
    SearchLogin { base_dn: String, filter: String },
    /// Connect anew and bind as the entry `dn` with the person's password.
    BindUser { dn: String, password: String },
}

/// What the directory answered to the last action.
#[derive(Debug)]
pub enum AuthReply {
    /// The connection, the bind or the search failed.
    Failed,
    /// The bind succeeded.
    Bound,
    /// The search succeeded and found these entries, by distinguished name.
    Found(Vec<String>),
}

/// An [`AuthAction`] as plain text.
pub enum AuthStep {
    Deny,
    Grant,
    BindService { username: Seq<char>, password: Seq<char> },
    SearchLogin { base_dn: Seq<char>, filter: Seq<char> },
    BindUser { dn: Seq<char>, password: Seq<char> },
}

/// An [`AuthReply`] as plain text.
pub enum AuthAnswer {
    Failed,
    Bound,
    Found(Seq<Seq<char>>),
}

impl View for AuthAction {
    type V = AuthStep;

    open spec fn view(&self) -> AuthStep {
        match *self {
            AuthAction::Deny => AuthStep::Deny,
            AuthAction::Grant => AuthStep::Grant,
            AuthAction::BindService { username, password } => AuthStep::BindService {
                username: username@,
                password: password@,
            },
            AuthAction::SearchLogin { base_dn, filter } => AuthStep::SearchLogin {
                base_dn: base_dn@,
                filter: filter@,
            },
            AuthAction::BindUser { dn, password } => AuthStep::BindUser {
                dn: dn@,
                password: password@,
            },
        }
    }
}

impl View for AuthReply {
    type V = AuthAnswer;

    open spec fn view(&self) -> AuthAnswer {
        match *self {
            AuthReply::Failed => AuthAnswer::Failed,
            AuthReply::Bound => AuthAnswer::Bound,
            AuthReply::Found(dns) => AuthAnswer::Found(dns@.map_values(|d: String| d@)),
        }
    }
}

/// The filter that selects the entries whose attribute `attribute` is
/// `value`.
pub open spec fn equality_filter(attribute: Seq<char>, value: Seq<char>) -> Seq<char> {
    "("@ + attribute + "="@ + value + ")"@
}

/// The filter that finds every entry, used to read one entry by its name.
pub open spec fn any_entry_filter() -> Seq<char> {
    "objectClass=*"@
}

/// What stands for the user name of a member whose entry gives none.
pub open spec fn unknown_username() -> Seq<char> {
    "---"@
}

/// What stands for the name of a member whose entry gives none.
pub open spec fn unknown_name() -> Seq<char> {
    "Desconhecido"@
}

/// The filter that selects the entries whose attribute `attribute` is
/// `value`.
pub fn make_filter(attribute: &str, value: &str) -> (filter: String)
    ensures
        filter@ == equality_filter(attribute@, value@),
{
    let mut filter: String = join3("(", attribute, "=");
    filter.append(value);
    filter.append(")");
    filter
}

/// Whether `i` is the place of the first attribute named `name`.
pub open spec fn is_first_attribute(
    attrs: Seq<(String, Vec<String>)>,
    name: Seq<char>,
    i: int,
) -> bool {
    &&& 0 <= i < attrs.len()
    &&& attrs[i].0@ == name
    &&& forall|j: int| 0 <= j < i ==> attrs[j].0@ != name
}

/// Whether the entry has an attribute named `name`.
pub open spec fn has_attribute(attrs: Seq<(String, Vec<String>)>, name: Seq<char>) -> bool {
    exists|i: int| 0 <= i < attrs.len() && attrs[i].0@ == name
}

/// The values of the attribute `name`: those of the first attribute of that
/// name, none where there is no such attribute.
pub open spec fn values_of(attrs: Seq<(String, Vec<String>)>, name: Seq<char>) -> Seq<String> {
    if has_attribute(attrs, name) {
        attrs[choose|i: int| is_first_attribute(attrs, name, i)].1@
    } else {
        Seq::empty()
    }
}

/// The first value of the attribute `name`, if it has one.
pub open spec fn first_value(attrs: Seq<(String, Vec<String>)>, name: Seq<char>) -> Option<
    Seq<char>,
> {
    if values_of(attrs, name).len() > 0 {
        Some(values_of(attrs, name)[0]@)
    } else {
        None
    }
}

/// `given` where it is present, else `fallback`.
pub open spec fn or_fallback(given: Option<Seq<char>>, fallback: Seq<char>) -> Seq<char> {
    match given {
        Some(text) => text,
        None => fallback,
    }
}

/// Whichever first attribute of a name one has found, its values are the
/// values of the name.
pub proof fn lemma_values_of(attrs: Seq<(String, Vec<String>)>, name: Seq<char>, i: int)
    requires
        is_first_attribute(attrs, name, i),
    ensures
        values_of(attrs, name) == attrs[i].1@,
{
    let j = choose|j: int| is_first_attribute(attrs, name, j);
    assert(is_first_attribute(attrs, name, j));
    if j < i {
        assert(attrs[j].0@ != name);
    }
    if i < j {
        assert(attrs[i].0@ != name);
    }
}

impl DirectoryEntry {
    /// The values of the attribute `name`.
    pub fn values<'a>(&'a self, name: &str) -> (values: Option<&'a Vec<String>>)
        ensures
            match values {
                Some(v) => has_attribute(self.attrs@, name@) && v@ == values_of(
                    self.attrs@,
                    name@,
                ),
                None => !has_attribute(self.attrs@, name@),
            },
    {
        let mut i: usize = 0;
        while i < self.attrs.len()
            invariant
                i <= self.attrs@.len(),
                forall|j: int| 0 <= j < i ==> self.attrs@[j].0@ != name@,
            decreases self.attrs@.len() - i,
        {
            if same_text(self.attrs[i].0.as_str(), name) {
                proof {
                    lemma_values_of(self.attrs@, name@, i as int);
                }
                return Some(&self.attrs[i].1);
            }
            i += 1;
        }
        None
    }

    /// The first value of the attribute `name`, if it has one.
    pub fn first(&self, name: &str) -> (value: Option<String>)
        ensures
            match value {
                Some(v) => first_value(self.attrs@, name@) == Some(v@),
                None => first_value(self.attrs@, name@) is None,
            },
    {
        match self.values(name) {
            Some(values) => {
                if values.len() > 0 {
                    Some(values[0].clone())
                } else {
                    None
                }
            },
            None => None,
        }
    }
}

impl LdapConnection {
    /// The filter that finds the group `group_name`.
    pub fn group_filter(&self, group_name: &str) -> (filter: String)
        ensures
            filter@ == equality_filter(self.attributes.group@, group_name@),
    {
        make_filter(self.attributes.group.as_str(), group_name)
    }

    /// The filter that finds the entry of the person who logs in as `login`.
    pub fn login_filter(&self, login: &str) -> (filter: String)
        ensures
            filter@ == equality_filter(self.attributes.login@, login@),
    {
        make_filter(self.attributes.login.as_str(), login)
    }

    /// The distinguished names of the members of the groups that a search
    /// found: the values of the member attribute, entry after entry.
    pub open spec fn members_listed(self, entries: Seq<DirectoryEntry>) -> Seq<String>
        decreases entries.len(),
    {
        if entries.len() == 0 {
            Seq::empty()
        } else {
            self.members_listed(entries.drop_last()) + values_of(
                entries.last().attrs@,
                self.attributes.member@,
            )
        }
    }

    /// The distinguished names of the members of the groups that a search
    /// found, for the caller to look each of them up.
    pub fn get_users_in_group(&self, entries: &Vec<DirectoryEntry>) -> (members: Vec<String>)
        ensures
            members@ == self.members_listed(entries@),
    {
        let mut members: Vec<String> = Vec::new();
        let mut i: usize = 0;
        assert(entries@.subrange(0, 0) == Seq::<DirectoryEntry>::empty());
        while i < entries.len()
            invariant
                i <= entries@.len(),
                members@ == self.members_listed(entries@.subrange(0, i as int)),
            decreases entries@.len() - i,
        {
            let ghost upto = entries@.subrange(0, i + 1);
            assert(upto.drop_last() == entries@.subrange(0, i as int));
            assert(upto.last() == entries@[i as int]);
            let ghost had = members@;
            match entries[i].values(self.attributes.member.as_str()) {
                Some(values) => {
                    let mut k: usize = 0;
                    while k < values.len()
                        invariant
                            k <= values@.len(),
                            members@ == had + values@.subrange(0, k as int),
                        decreases values@.len() - k,
                    {
                        members.push(values[k].clone());
                        k += 1;
                        assert(members@ == had + values@.subrange(0, k as int));
                    }
                    assert(values@.subrange(0, values@.len() as int) == values@);
                },
                None => {
                    assert(had + Seq::<String>::empty() == had);
                },
            }
            i += 1;
        }
        assert(entries@.subrange(0, entries@.len() as int) == entries@);
        members
    }

    /// Whether `user` is what the entry with the attributes `attrs` tells
    /// of a member: the first value of each attribute, and where an
    /// attribute has none, `---` for the user name, `Desconhecido` for the
    /// name and nothing for the address.
    pub open spec fn describes(self, attrs: Seq<(String, Vec<String>)>, user: LdapUser) -> bool {
        &&& user.username@ == or_fallback(
            first_value(attrs, self.attributes.username@),
            unknown_username(),
        )
        &&& user.name@ == or_fallback(first_value(attrs, self.attributes.name@), unknown_name())
        &&& user.email@ == or_fallback(
            first_value(attrs, self.attributes.email@),
            Seq::<char>::empty(),
        )
    }

    /// The member that the first of the entries found for a distinguished
    /// name describes; `None` where the search found no entry.
    pub fn get_user_details(&self, entries: &Vec<DirectoryEntry>) -> (user: Option<LdapUser>)
        ensures
            match user {
                Some(u) => entries@.len() > 0 && self.describes(entries@[0].attrs@, u),
                None => entries@.len() == 0,
            },
    {
        if entries.len() == 0 {
            return None;
        }
        let entry: &DirectoryEntry = &entries[0];
        let username: String = match entry.first(self.attributes.username.as_str()) {
            Some(v) => v,
            None => String::from_str("---"),
        };
        let name: String = match entry.first(self.attributes.name.as_str()) {
            Some(v) => v,
            None => String::from_str("Desconhecido"),
        };
        let email: String = match entry.first(self.attributes.email.as_str()) {
            Some(v) => v,
            None => String::new(),
        };
        Some(LdapUser { username, name, email })
    }

    /// The step that follows `last` once the directory has answered it with
    /// `reply`, in checking the login of `login` with `password`. A failure
    /// at any step refuses the login. After the service account is bound
    /// the person's entry is searched; the first entry found is bound with
    /// the person's password, and the login is good just when that bind
    /// succeeds.
    pub open spec fn next_step(
        self,
        last: AuthStep,
        reply: AuthAnswer,
        login: Seq<char>,
        password: Seq<char>,
    ) -> AuthStep {
        match (last, reply) {
            (AuthStep::BindService { .. }, AuthAnswer::Bound) => AuthStep::SearchLogin {
                base_dn: self.base_dn@,
                filter: equality_filter(self.attributes.login@, login),
            },
            (AuthStep::SearchLogin { .. }, AuthAnswer::Found(dns)) => if dns.len() > 0 {
                AuthStep::BindUser { dn: dns[0], password }
            } else {
                AuthStep::Deny
            },
            (AuthStep::BindUser { .. }, AuthAnswer::Bound) => AuthStep::Grant,
            _ => AuthStep::Deny,
        }
    }

    /// The first step in checking the login of `login` with `password`: an
    /// empty name or password is refused at once, any other login starts
    /// with the bind of the service account.
    pub open spec fn first_step(self, login: Seq<char>, password: Seq<char>) -> AuthStep {
        if login.len() == 0 || password.len() == 0 {
            AuthStep::Deny
        } else {
            AuthStep::BindService { username: self.username@, password: self.password@ }
        }
    }

    /// Starts checking a login at the directory and says what to do first.
    pub fn simple_authentication(&self, login: &str, password: &str) -> (action: AuthAction)
        ensures
            action@ == self.first_step(login@, password@),
    {
        if login.unicode_len() == 0 || password.unicode_len() == 0 {
            return AuthAction::Deny;
        }
        AuthAction::BindService { username: self.username.clone(), password: self.password.clone() }
    }

    /// Goes on checking a login: `last` is the action that was carried out,
    /// `reply` what the directory answered to it.
    pub fn continue_authentication(
        &self,
        last: &AuthAction,
        reply: AuthReply,
        login: &str,
        password: &str,
    ) -> (action: AuthAction)
        ensures
            action@ == self.next_step(last@, reply@, login@, password@),
    {
        match last {
            AuthAction::BindService { .. } => match reply {
                AuthReply::Bound => AuthAction::SearchLogin {
                    base_dn: self.base_dn.clone(),
                    filter: self.login_filter(login),
                },
                _ => AuthAction::Deny,
            },
            AuthAction::SearchLogin { .. } => match reply {
                AuthReply::Found(dns) => {
                    if dns.len() > 0 {
                        AuthAction::BindUser {
                            dn: dns[0].clone(),
                            password: String::from_str(password),
                        }
                    } else {
                        AuthAction::Deny
                    }
                },
                _ => AuthAction::Deny,
            },
            AuthAction::BindUser { .. } => match reply {
                AuthReply::Bound => AuthAction::Grant,
                _ => AuthAction::Deny,
            },
            _ => AuthAction::Deny,
        }
    }
}

/// A login is found good only as the answer to a successful bind with the
/// person's own password, and that bind is only ever asked for with the
/// password that the person presented, which is not empty where the check
/// was started with [`LdapConnection::first_step`].
pub proof fn lemma_grant_needs_user_bind(
    conn: LdapConnection,
    last: AuthStep,
    reply: AuthAnswer,
    login: Seq<char>,
    password: Seq<char>,
)
    ensures
        conn.next_step(last, reply, login, password) is Grant ==> last is BindUser && reply
            is Bound,
        conn.next_step(last, reply, login, password) matches AuthStep::BindUser {
            password: sent,
            ..
        } ==> sent == password && last is SearchLogin,
        !(conn.first_step(login, password) is Grant),
        password.len() == 0 ==> conn.first_step(login, password) is Deny,
{
}

} // verus!
