//! The records that the database holds, as plain values.
pub mod key;
pub mod registration_link;
pub mod user;
