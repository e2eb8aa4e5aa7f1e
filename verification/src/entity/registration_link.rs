//! A link through which a new user may register a first key.
use vstd::prelude::*;

verus! {

/// A row of the `registration_link` table. `human_id` is the readable part of
/// the link; `key_id` names the key registered through it, if any.
#[derive(Clone, Debug, PartialEq)]
pub struct Model {
    pub id: i32,
    pub human_id: String,
    pub key_id: Option<String>,
}

} // verus!
