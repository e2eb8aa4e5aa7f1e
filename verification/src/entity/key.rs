//! A passkey registered to a user.
use vstd::prelude::*;

verus! {

/// A row of the `key` table. `id` is the text of the key's UUID, `user_id`
/// that of its owner, and `credential` the passkey in JSON.
#[derive(Clone, Debug, PartialEq)]
pub struct Model {
    pub id: String,
    pub user_id: String,
    pub name: String,
    pub color: String,
    pub created_at: String,
    pub last_used: String,
    pub credential: String,
}

} // verus!
