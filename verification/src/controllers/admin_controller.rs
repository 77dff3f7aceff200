//! Requests on administrators.

use crate::model::entity::admin::{Admin, AdminData, AdminLogin};
use crate::security::credential::{LocalCredential, LoginDecision};
use crate::security::hashing::{hash_optional, hash_secret, matches_hash, HashError};
use vstd::prelude::*;

verus! {

/// Why no administrator was created.
#[derive(Debug, PartialEq, Eq, Structural, Clone, Copy)]
pub enum CreateAdminError {
    /// An administrator of that user name exists.
    UsernameTaken,
    /// The request gives no password.
    MissingPassword,
    /// No hash of the password could be made.
    HashUnavailable,
}

/// What becomes of the login `data`, given the administrator stored under
/// its user name.
pub open spec fn admin_login_decided(
    admin: Option<Admin>,
    presented: Seq<char>,
    directory: bool,
) -> LoginDecision {
    match admin {
        Some(a) => match a.password {
            Some(hash) => if matches_hash(presented, hash@) {
                LoginDecision::Accepted
            } else {
                LoginDecision::Rejected
            },
            None => if directory {
                LoginDecision::AskDirectory
            } else {
                LoginDecision::Rejected
            },
        },
        None => LoginDecision::Rejected,
    }
}

/// Decides on an administrator's login. `admin` is the record stored under
/// the user name of `data`, `directory` says whether a directory is set up.
/// An unknown user name is refused; a record with a password accepts that
/// password only; a record without one sends the login to the directory.
pub fn admin_login(admin: Option<&Admin>, data: &AdminLogin, directory: bool) -> (decision:
    LoginDecision)
    ensures
        decision == admin_login_decided(
            match admin {
                Some(a) => Some(*a),
                None => None,
            },
            data.password@,
            directory,
        ),
{
    match admin {
        Some(a) => {
            let credential: LocalCredential = LocalCredential::from_optional(&a.password);
            credential.decide(data.password.as_str(), directory)
        },
        None => LoginDecision::Rejected,
    }
}

/// The administrator `username` called `name`, given the outcome of hashing
/// the password: with a hash the record that holds it, not yet stored;
/// without one the error.
pub fn admin_with_password(name: String, username: String, hashed: Result<String, HashError>) -> (r:
    Result<Admin, CreateAdminError>)
    ensures
        match hashed {
            Ok(h) => {
                &&& r matches Ok(admin)
                &&& admin.id@.len() == 0
                &&& admin.name == name
                &&& admin.username == username
                &&& admin.password == Some(h)
            },
            Err(_) => r == Err::<Admin, CreateAdminError>(CreateAdminError::HashUnavailable),
        },
{
    match hashed {
        Ok(h) => Ok(Admin { id: String::new(), name, username, password: Some(h) }),
        Err(_) => Err(CreateAdminError::HashUnavailable),
    }
}

/// The administrator to store for the request `data`; `taken` says whether
/// an administrator of that user name exists. The record holds the hash of
/// the password, never the password.
pub fn create_admin(data: AdminData, taken: bool) -> (r: Result<Admin, CreateAdminError>)
    ensures
        match r {
            Ok(admin) => {
                &&& !taken
                &&& data.password is Some
                &&& admin.id@.len() == 0
                &&& admin.name == data.name
                &&& admin.username == data.username
                &&& admin.password matches Some(hash)
                &&& matches_hash(data.password->0@, hash@)
            },
            Err(e) => {
                &&& e == CreateAdminError::UsernameTaken <==> taken
                &&& e == CreateAdminError::MissingPassword <==> !taken && data.password is None
                &&& e == CreateAdminError::HashUnavailable ==> !taken && data.password is Some
            },
        },
{
    if taken {
        return Err(CreateAdminError::UsernameTaken);
    }
    match data.password {
        Some(password) => {
            let hashed: Result<String, HashError> = hash_secret(password.as_str());
            admin_with_password(data.name, data.username, hashed)
        },
        None => Err(CreateAdminError::MissingPassword),
    }
}

/// Why an administrator was not changed.
#[derive(Debug, PartialEq, Eq, Structural, Clone, Copy)]
pub enum UpdateAdminError {
    /// Another administrator has the new user name.
    UsernameTaken,
    /// No hash of the new password could be made.
    HashUnavailable,
}

/// What the change `data` makes of the administrator `before`: name and
/// user name are those of the change, and so is the password, as a hash,
/// where the change gives one.
pub open spec fn admin_updated(before: Admin, after: Admin, data: AdminData) -> bool {
    &&& after.id == before.id
    &&& after.name == data.name
    &&& after.username@ == data.username@
    &&& match data.password {
        Some(p) => after.password is Some && matches_hash(p@, after.password->0@),
        None => after.password == before.password,
    }
}

/// Changes a stored administrator to the name and the user name of `data`,
/// given the outcome of hashing the new password, `None` where the change
/// gives no password: with a hash the record holds it, with `None` it keeps
/// its password, and where no hash could be made it stays as it is.
pub fn change_admin(admin: &mut Admin, data: AdminData, hashed: Option<Result<String, HashError>>) -> (r:
    Result<(), UpdateAdminError>)
    ensures
        match hashed {
            Some(Err(_)) => r == Err::<(), UpdateAdminError>(UpdateAdminError::HashUnavailable)
                && *final(admin) == *old(admin),
            Some(Ok(h)) => r is Ok && *final(admin) == (Admin {
                name: data.name,
                username: final(admin).username,
                password: Some(h),
                ..*old(admin)
            }) && final(admin).username@ == data.username@,
            None => r is Ok && *final(admin) == (Admin {
                name: data.name,
                username: final(admin).username,
                ..*old(admin)
            }) && final(admin).username@ == data.username@,
        },
{
    let password: Option<String> = match hashed {
        Some(Ok(h)) => Some(h),
        Some(Err(_)) => {
            return Err(UpdateAdminError::HashUnavailable);
        },
        None => None,
    };
    admin.name = data.name;
    admin.username = data.username;
    if let Some(h) = password {
        admin.password = Some(h);
    }
    Ok(())
}

/// Changes a stored administrator; `taken` says whether an administrator
/// has the user name of `data`. A user name that differs from the old one
/// must be free. Where the change is refused the record stays as it is.
pub fn update_admin(admin: &mut Admin, data: AdminData, taken: bool) -> (r: Result<
    (),
    UpdateAdminError,
>)
    ensures
        match r {
            Ok(()) => {
                &&& old(admin).username@ == data.username@ || !taken
                &&& admin_updated(*old(admin), *final(admin), data)
            },
            Err(e) => {
                &&& *final(admin) == *old(admin)
                &&& e == UpdateAdminError::UsernameTaken <==> old(admin).username@
                    != data.username@ && taken
            },
        },
        (old(admin).username@ == data.username@ || !taken) && data.password is None ==> r is Ok,
{
    let renamed: bool = !crate::utils::text::same_text(
        admin.username.as_str(),
        data.username.as_str(),
    );
    if renamed && taken {
        return Err(UpdateAdminError::UsernameTaken);
    }
    let hashed: Option<Result<String, HashError>> = hash_optional(&data.password);
    change_admin(admin, data, hashed)
}

/// The administrators as they are shown: without their passwords.
pub fn get_admins(admins: Vec<Admin>) -> (shown: Vec<Admin>)
    ensures
        shown@.len() == admins@.len(),
        forall|i: int|
            0 <= i < admins@.len() ==> #[trigger] shown@[i] == (Admin {
                password: None,
                ..admins@[i]
            }),
{
    let mut shown: Vec<Admin> = admins;
    let mut i: usize = 0;
    while i < shown.len()
        invariant
            i <= shown@.len(),
            shown@.len() == admins@.len(),
            forall|j: int|
                0 <= j < i ==> #[trigger] shown@[j] == (Admin { password: None, ..admins@[j] }),
            forall|j: int| i <= j < shown@.len() ==> shown@[j] == admins@[j],
        decreases shown@.len() - i,
    {
        shown[i].password = None;
        i += 1;
    }
    shown
}

} // verus!
