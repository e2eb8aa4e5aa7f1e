//! Access to the signed-in user.
pub mod user;
