//! A user account.
use vstd::prelude::*;

verus! {

/// A row of the `user` table. `id` is the text of the user's UUID.
#[derive(Clone, Debug, PartialEq)]
pub struct Model {
    pub id: String,
    pub email: String,
    pub role: String,
    pub created_at: String,
    pub last_authenticated: String,
}

} // verus!
