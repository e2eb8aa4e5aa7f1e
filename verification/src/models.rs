//! What the two session stores hold between requests.
use vstd::prelude::*;
use webauthn_rs::prelude::{PasskeyAuthentication, PasskeyRegistration};

verus! {

/// A registration under way: the state of the WebAuthn ceremony, the e-mail
/// address being registered, and the id chosen for the user.
#[derive(Clone, Debug)]
pub struct RegistrationSessionInfo {
    pub reg_state: PasskeyRegistration,
    pub email: String,
    pub unique_user_id: u128,
}

/// The authentication session: the signed-in user, if any, and an
/// authentication under way (the user it is for and its ceremony state).
#[derive(Clone, Debug)]
pub struct AuthSessionInfo {
    pub current_user: Option<u128>,
    pub authentication_id: Option<u128>,
    pub auth_state: Option<PasskeyAuthentication>,
}

/// No user signed in and no authentication under way.
pub open spec fn signed_out_session() -> AuthSessionInfo {
    AuthSessionInfo { current_user: None, authentication_id: None, auth_state: None }
}

/// An authentication under way for `user`, nobody signed in.
pub open spec fn pending_session(user: u128, state: PasskeyAuthentication) -> AuthSessionInfo {
    AuthSessionInfo { current_user: None, authentication_id: Some(user), auth_state: Some(state) }
}

/// `user` signed in, no authentication under way.
pub open spec fn signed_in_session(user: u128) -> AuthSessionInfo {
    AuthSessionInfo { current_user: Some(user), authentication_id: None, auth_state: None }
}

impl AuthSessionInfo {
    /// A session is one of three kinds: signed out, an authentication under
    /// way (its user and its state together), or a user signed in.
    pub open spec fn well_formed(self) -> bool {
        &&& (self.authentication_id is Some <==> self.auth_state is Some)
        &&& !(self.current_user is Some && self.authentication_id is Some)
    }

    /// The session with nobody signed in and nothing under way.
    pub fn signed_out() -> (s: AuthSessionInfo)
        ensures
            s == signed_out_session(),
            s.well_formed(),
    {
        AuthSessionInfo { current_user: None, authentication_id: None, auth_state: None }
    }

    /// The session while `user` authenticates with the ceremony `state`.
    pub fn pending(user: u128, state: PasskeyAuthentication) -> (s: AuthSessionInfo)
        ensures
            s == pending_session(user, state),
            s.well_formed(),
    {
        AuthSessionInfo { current_user: None, authentication_id: Some(user), auth_state: Some(state) }
    }

    /// The session of a signed-in `user`.
    pub fn signed_in(user: u128) -> (s: AuthSessionInfo)
        ensures
            s == signed_in_session(user),
            s.well_formed(),
    {
        AuthSessionInfo { current_user: Some(user), authentication_id: None, auth_state: None }
    }
}

/// Every session the library makes is of one of the three kinds: signed out,
/// an authentication under way, or a user signed in.
pub proof fn law_sessions_well_formed(user: u128, state: PasskeyAuthentication)
    ensures
        signed_out_session().well_formed(),
        pending_session(user, state).well_formed(),
        signed_in_session(user).well_formed(),
{
}

} // verus!
