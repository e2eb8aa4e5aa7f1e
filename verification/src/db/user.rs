//! The request guard that yields the signed-in user.
use crate::entity::user;
use crate::ids::{uuid_string, uuid_text};
use crate::models::{
    pending_session, signed_in_session, signed_out_session, AuthSessionInfo,
};
use webauthn_rs::prelude::PasskeyAuthentication;
use vstd::prelude::*;

verus! {

/// The signed-in user of a request.
pub struct UserAuth(pub user::Model);

/// Why a request has no signed-in user.
#[derive(Clone, Copy, Debug, PartialEq, Eq, Structural)]
pub enum UserError {
    NotLoggedIn,
}

/// The stored id of the user a session is signed in as: the text of its
/// current user's id; none where there is no session or nobody signed in.
pub open spec fn session_user_text(auth: Option<AuthSessionInfo>) -> Option<Seq<char>> {
    match auth {
        Some(session) => match session.current_user {
            Some(id) => Some(uuid_text(id)),
            None => None,
        },
        None => None,
    }
}

/// The id under which to look up the signed-in user of a session, if any.
pub fn session_user_id(auth: &Option<AuthSessionInfo>) -> (r: Option<String>)
    ensures
        r.deep_view() == session_user_text(*auth),
{
    match auth {
        Some(session) => match session.current_user {
            Some(id) => Some(uuid_string(id)),
            None => None,
        },
        None => None,
    }
}

impl UserAuth {
    /// The guard's outcome for the user found under the session's id: the
    /// user where one was found, else none (the request is passed on to the
    /// routes for visitors who are not signed in).
    pub fn from_lookup(found: Option<user::Model>) -> (r: Option<UserAuth>)
        ensures
            r is Some == found is Some,
            r matches Some(auth) ==> auth.0 == found->0,
    {
        match found {
            Some(user) => Some(UserAuth(user)),
            None => None,
        }
    }
}

/// Only a signed-in session yields a user to look up, and it is the signed-in
/// user's stored id: a signed-out session, and a session whose
/// authentication is still under way, yield none.
pub proof fn law_only_signed_in_sessions_have_a_user(user: u128, state: PasskeyAuthentication)
    ensures
        session_user_text(Some(signed_in_session(user))) == Some(uuid_text(user)),
        session_user_text(Some(signed_out_session())) is None,
        session_user_text(Some(pending_session(user, state))) is None,
        session_user_text(None) is None,
{
}

} // verus!
