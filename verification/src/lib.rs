//! Moat: sign-in with passkeys. The sessions, the decisions of the WebAuthn
//! ceremonies, the schema and the pages of the site, with their contracts.
use vstd::prelude::*;

pub mod ids;
pub mod url_text;
pub mod passkeys;
pub mod entity;
pub mod models;
pub mod auth;
pub mod db;
pub mod templates;
pub mod setup;
pub mod schema;
pub mod utils;
