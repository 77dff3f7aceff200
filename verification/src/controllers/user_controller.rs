//! Requests on users.

use crate::model::entity::client::{Client, ClientStatus};
use crate::configurations::config::replaced_by;
use crate::model::entity::user::{User, UserLogin, UserUpdate};
use crate::security::credential::{LocalCredential, LoginDecision};
use crate::security::hashing::{hash_optional, hash_secret, matches_hash, HashError};
use crate::utils::clock::Timestamp;
use vstd::prelude::*;
use vstd::string::*;

verus! {

/// Why no user was created.
#[derive(Debug, PartialEq, Eq, Structural, Clone, Copy)]
pub enum CreateUserError {
    /// Only an administrator may create users while registrations are
    /// closed.
    Closed,
    /// User name, address and password are all too short.
    InvalidFields,
    /// A user of that user name exists.
    UsernameTaken,
    /// No hash of the password could be made.
    HashUnavailable,
}

/// The length of a text in bytes.
pub open spec fn byte_len(text: Seq<char>) -> usize {
    vstd::utf8::encode_utf8(text).len() as usize
}

/// Whether the fields of a new user are refused: they are where the user
/// name has fewer than 3 bytes and the address fewer than 10 and the
/// password fewer than 6.
pub open spec fn fields_refused(user: User) -> bool {
    byte_len(user.username@) < 3 && byte_len(user.email@) < 10 && byte_len(user.password@) < 6
}

/// What becomes of a user's login, given the user stored under the user
/// name.
pub open spec fn user_login_decided(
    user: Option<User>,
    presented: Seq<char>,
    directory: bool,
) -> LoginDecision {
    match user {
        Some(u) => if u.password@.len() == 0 {
            if directory {
                LoginDecision::AskDirectory
            } else {
                LoginDecision::Rejected
            }
        } else if matches_hash(presented, u.password@) {
            LoginDecision::Accepted
        } else {
            LoginDecision::Rejected
        },
        None => LoginDecision::Rejected,
    }
}

/// Decides on a user's login. `user` is the record stored under the user
/// name of `data`, `directory` says whether a directory is set up.
pub fn login_user(user: Option<&User>, data: &UserLogin, directory: bool) -> (decision:
    LoginDecision)
    ensures
        decision == user_login_decided(
            match user {
                Some(u) => Some(*u),
                None => None,
            },
            data.password@,
            directory,
        ),
{
    match user {
        Some(u) => {
            let credential: LocalCredential = LocalCredential::from_password(u.password.as_str());
            credential.decide(data.password.as_str(), directory)
        },
        None => LoginDecision::Rejected,
    }
}

/// The access record of a user who has logged in at `now` with the device
/// `mac` on `site`: the user's profile, approved for `minutes` minutes, with
/// nobody named as approver.
pub fn user_client(user: &User, mac: String, site: String, minutes: u16, now: Timestamp) -> (client:
    Client)
    ensures
        client.mac == mac,
        client.site == site,
        client.time_connection == minutes,
        client.status is Approved,
        client.id@.len() == 0,
        client.full_name == user.data.full_name,
        client.email == user.data.email,
        client.phone == user.data.phone,
        client.fields@ == user.data.fields@,
        client.hostname is None,
        client.tx_bytes is None,
        client.rx_bytes is None,
        client.start_time == now,
        client.approver@ == crate::model::entity::client::blank(),
        user.data.well_formed() ==> client.well_formed(),
{
    let mut client: Client = Client::new_with_data_at(&user.data, now);
    client.site = site;
    client.mac = mac;
    client.time_connection = minutes;
    client.status = ClientStatus::Approved;
    proof {
        reveal_strlit("---");
    }
    client
}

/// The user to store for a request to create `user`. `by_admin` says
/// whether an administrator asks, `registrations_open` whether anybody may,
/// `taken` whether a user of that user name exists. The record holds the
/// hash of the password, never the password.
pub fn create_user(user: User, by_admin: bool, registrations_open: bool, taken: bool) -> (r: Result<
    User,
    CreateUserError,
>)
    ensures
        match r {
            Ok(stored) => {
                &&& registrations_open || by_admin
                &&& !fields_refused(user)
                &&& !taken
                &&& matches_hash(user.password@, stored.password@)
                &&& stored == (User { password: stored.password, ..user })
            },
            Err(e) => {
                &&& e == CreateUserError::Closed <==> !registrations_open && !by_admin
                &&& e == CreateUserError::InvalidFields <==> (registrations_open || by_admin)
                    && fields_refused(user)
                &&& e == CreateUserError::UsernameTaken <==> (registrations_open || by_admin)
                    && !fields_refused(user) && taken
                &&& e == CreateUserError::HashUnavailable ==> (registrations_open || by_admin)
                    && !fields_refused(user) && !taken
            },
        },
{
    if !registrations_open && !by_admin {
        return Err(CreateUserError::Closed);
    }
    if user.username.as_str().len() < 3 && user.email.as_str().len() < 10
        && user.password.as_str().len() < 6 {
        return Err(CreateUserError::InvalidFields);
    }
    if taken {
        return Err(CreateUserError::UsernameTaken);
    }
    let hashed: Result<String, HashError> = hash_secret(user.password.as_str());
    user_with_password(user, hashed)
}

/// The user `user`, given the outcome of hashing the password: with a hash
/// the record that holds it in place of the password; without one the error.
pub fn user_with_password(user: User, hashed: Result<String, HashError>) -> (r: Result<
    User,
    CreateUserError,
>)
    ensures
        match hashed {
            Ok(h) => r == Ok::<User, CreateUserError>(User { password: h, ..user }),
            Err(_) => r == Err::<User, CreateUserError>(CreateUserError::HashUnavailable),
        },
{
    match hashed {
        Ok(h) => {
            let mut stored: User = user;
            stored.password = h;
            Ok(stored)
        },
        Err(_) => Err(CreateUserError::HashUnavailable),
    }
}

/// What a change `update` makes of the user `before`: the profile that the
/// change gives replaces the old one; of a user with a password of its own,
/// the address and the password that the change gives replace the old ones
/// too, the password as a hash. A user who logs in at the directory keeps
/// address and empty password.
pub open spec fn user_updated(before: User, after: User, update: UserUpdate) -> bool {
    &&& after.id == before.id
    &&& after.username == before.username
    &&& after.data == replaced_by(before.data, update.data)
    &&& if before.directory_backed() {
        after.email == before.email && after.password == before.password
    } else {
        &&& after.email == replaced_by(before.email, update.email)
        &&& match update.password {
            Some(p) => matches_hash(p@, after.password@),
            None => after.password == before.password,
        }
    }
}

/// Changes a stored user, given the outcome of hashing the new password,
/// `None` where there is none to hash. A user who logs in at the directory
/// takes the new profile and nothing else. Any other user takes the new
/// address and profile, and the hash as the password where there is one;
/// where no hash could be made the record stays as it is.
pub fn change_user(user: &mut User, update: UserUpdate, hashed: Option<Result<String, HashError>>) -> (r:
    Result<(), HashError>)
    ensures
        if old(user).directory_backed() {
            r is Ok && *final(user) == (User {
                data: replaced_by(old(user).data, update.data),
                ..*old(user)
            })
        } else {
            match hashed {
                Some(Err(e)) => r == Err::<(), HashError>(e) && *final(user) == *old(user),
                Some(Ok(h)) => r is Ok && *final(user) == (User {
                    password: h,
                    email: replaced_by(old(user).email, update.email),
                    data: replaced_by(old(user).data, update.data),
                    ..*old(user)
                }),
                None => r is Ok && *final(user) == (User {
                    email: replaced_by(old(user).email, update.email),
                    data: replaced_by(old(user).data, update.data),
                    ..*old(user)
                }),
            }
        },
{
    if user.is_directory_backed() {
        if let Some(data) = update.data {
            user.data = data;
        }
        return Ok(());
    }
    let password: Option<String> = match hashed {
        Some(Ok(h)) => Some(h),
        Some(Err(e)) => {
            return Err(e);
        },
        None => None,
    };
    if let Some(h) = password {
        user.password = h;
    }
    if let Some(email) = update.email {
        user.email = email;
    }
    if let Some(data) = update.data {
        user.data = data;
    }
    Ok(())
}

/// Changes a stored user. A change of a user who logs in at the directory,
/// or one that gives no password, needs no hash and always goes through.
/// Where a hash is needed and none can be made the record stays as it is.
pub fn update_user(user: &mut User, update: UserUpdate) -> (r: Result<(), HashError>)
    ensures
        match r {
            Ok(()) => user_updated(*old(user), *final(user), update),
            Err(_) => *final(user) == *old(user),
        },
        old(user).directory_backed() || update.password is None ==> r is Ok,
{
    let hashed: Option<Result<String, HashError>> = if user.is_directory_backed() {
        None
    } else {
        hash_optional(&update.password)
    };
    change_user(user, update, hashed)
}

/// The users as they are shown: without their passwords.
pub fn get_users(users: Vec<User>) -> (shown: Vec<User>)
    ensures
        shown@.len() == users@.len(),
        forall|i: int|
            0 <= i < users@.len() ==> (#[trigger] shown@[i]).password@.len() == 0 && shown@[i]
                == (User { password: shown@[i].password, ..users@[i] }),
{
    let mut shown: Vec<User> = users;
    let mut i: usize = 0;
    while i < shown.len()
        invariant
            i <= shown@.len(),
            shown@.len() == users@.len(),
            forall|j: int|
                0 <= j < i ==> (#[trigger] shown@[j]).password@.len() == 0 && shown@[j] == (User {
                    password: shown@[j].password,
                    ..users@[j]
                }),
            forall|j: int| i <= j < shown@.len() ==> shown@[j] == users@[j],
        decreases shown@.len() - i,
    {
        shown[i].password = String::new();
        i += 1;
    }
    shown
}

} // verus!
