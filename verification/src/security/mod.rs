pub mod approval_code;
pub mod auth_jwt;
pub mod credential;
pub mod hashing;
