//! Registration and authentication with passkeys.
//!
//! Each request handler alternates between the database or the session store
//! and a decision. The decisions stand here: each function takes what the
//! previous await produced and says what comes next. Where the handler gives
//! up on a request (it has no session, an id does not parse, a field is
//! missing), the decision says so with an [`Abort`] or a variant of its own.
use crate::db::user::session_user_text;
use crate::entity::{key, user};
use crate::ids::{is_v4_uuid, new_uuid, uuid_bytes, parse_uuid, uuid_parse, uuid_string, uuid_text};
use crate::models::{
    pending_session, signed_in_session, signed_out_session, AuthSessionInfo,
    RegistrationSessionInfo,
};
use crate::passkeys::{
    assertion_verified, builder_for, builder_named, ceremony_challenge, ceremony_passkeys,
    creation_challenge, registration_challenge, request_challenge, challenge_excluded_credentials,
    challenge_user_display_name, challenge_user_handle, challenge_user_name,
    domain_accepts_rp_id, finish_passkey_authentication, finish_passkey_registration,
    parse_url, passkey_from_json, passkey_json, passkey_json_accepted, passkey_parse, passkey_registration,
    passkey_to_json, relying_party_built, start_passkey_authentication,
    start_passkey_registration, url_domain, url_parse, webauthn_build, webauthn_builder,
    webauthn_builder_rp_name,
};
use crate::url_text::{
    is_encoded_char, lemma_percent_encoded_is_query_safe, url_encode, url_encoded,
};
use vstd::utf8::encode_utf8;
use std::sync::Arc;
use vstd::prelude::*;
use webauthn_rs::prelude::{
    CredentialID, Passkey, PasskeyAuthentication, PasskeyRegistration, PublicKeyCredential,
    RegisterPublicKeyCredential,
};
use webauthn_rs::Webauthn;
use webauthn_rs_proto::attest::CreationChallengeResponse;
use webauthn_rs_proto::RequestChallengeResponse;

verus! {

/// The name under which the relying party presents itself.
pub const RP_NAME: &'static str = "Moat";

/// What the signed-in check answers.
pub const AUTHENTICATED_MESSAGE: &'static str = "Successfully Authenticated!";

/// Where signing out leads.
pub const SIGN_OUT_TARGET: &'static str = "/";

/// The status a handler answers with.
#[derive(Clone, Copy, Debug, PartialEq, Eq, Structural)]
pub enum HttpStatus {
    Success,
    BadRequest,
    NotFound,
}

/// The numeric code of a status.
pub open spec fn status_code(s: HttpStatus) -> u16 {
    match s {
        HttpStatus::Success => 200,
        HttpStatus::BadRequest => 400,
        HttpStatus::NotFound => 404,
    }
}

impl HttpStatus {
    /// The numeric HTTP code: 200, 400 or 404.
    pub fn code(&self) -> (c: u16)
        ensures
            c == status_code(*self),
    {
        match self {
            HttpStatus::Success => 200,
            HttpStatus::BadRequest => 400,
            HttpStatus::NotFound => 404,
        }
    }
}

/// Why a handler gives up on a request instead of answering it.
#[derive(Clone, Copy, Debug, PartialEq, Eq, Structural)]
pub enum Abort {
    /// A user with the e-mail address exists but there is no authentication session.
    NoAuthSession,
    /// A stored user id is not a UUID.
    InvalidUserId,
    /// No authentication is under way in the session.
    NoPendingAuthentication,
}

/// The origin of a site served over HTTPS at `host`.
pub open spec fn https_origin(host: Seq<char>) -> Seq<char> {
    "https://"@ + host
}

/// The origin of the relying party: `https://` followed by its id.
pub fn rp_origin(rp_id: &str) -> (r: String)
    ensures
        r@ == https_origin(rp_id@),
{
    let mut origin = "https://".to_owned();
    origin.append(rp_id);
    origin
}

/// Whether a relying party can be set up at `rp_id`: its https origin is a
/// URL whose domain suits the id.
pub open spec fn relying_party_configurable(rp_id: Seq<char>) -> bool {
    &&& url_parse(https_origin(rp_id)) is Some
    &&& domain_accepts_rp_id(rp_id, url_domain(url_parse(https_origin(rp_id)).unwrap()))
}

/// The relying party set up at `rp_id`: built from the id, its https origin
/// and the name [`RP_NAME`].
pub open spec fn relying_party_for(rp_id: Seq<char>) -> Webauthn {
    relying_party_built(
        builder_named(builder_for(rp_id, url_parse(https_origin(rp_id)).unwrap()), RP_NAME@),
    )
}

/// The WebAuthn relying party that every ceremony goes through.
pub struct AuthState {
    webauthn: Arc<Webauthn>,
}

impl AuthState {
    /// The relying party for the site at `rp_id`, named [`RP_NAME`], whose
    /// origin is `https://` and the id. `None` exactly where that origin is
    /// not a URL, or its domain is neither the id nor ends in `.` and the id.
    pub fn new(rp_id: &str) -> (r: Option<AuthState>)
        ensures
            r is Some <==> relying_party_configurable(rp_id@),
            r matches Some(s) ==> s.relying_party() == relying_party_for(rp_id@),
            r is Some <==> (url_parse("https://"@ + rp_id@) is Some && domain_accepts_rp_id(
                rp_id@,
                url_domain(url_parse("https://"@ + rp_id@).unwrap()),
            )),
            r matches Some(s) ==> s.relying_party() == relying_party_built(
                builder_named(builder_for(rp_id@, url_parse("https://"@ + rp_id@).unwrap()), "Moat"@),
            ),
    {
        let origin_text = rp_origin(rp_id);
        let origin = match parse_url(origin_text.as_str()) {
            Some(origin) => origin,
            None => return None,
        };
        let builder = match webauthn_builder(rp_id, &origin) {
            Some(builder) => builder,
            None => return None,
        };
        let builder = webauthn_builder_rp_name(builder, RP_NAME);
        match webauthn_build(builder) {
            Some(webauthn) => Some(AuthState { webauthn: Arc::new(webauthn) }),
            None => None,
        }
    }

    /// The relying party this state holds.
    pub closed spec fn relying_party(&self) -> Webauthn {
        *self.webauthn
    }

    /// The relying party.
    pub fn webauthn(&self) -> (r: &Webauthn)
        ensures
            *r == self.relying_party(),
    {
        &*self.webauthn
    }
}

// ---------------------------------------------------------------------------
// Starting a registration
// ---------------------------------------------------------------------------

/// Whether the session is already signed in as the user who holds the e-mail
/// address being registered. The handler reads the session only when such a
/// user exists, and gives up where there is no session, or where someone is
/// signed in and the user's stored id is not a UUID.
pub open spec fn signed_in_as(user_id: Seq<char>, auth: Option<AuthSessionInfo>) -> Result<
    bool,
    Abort,
> {
    match auth {
        None => Err(Abort::NoAuthSession),
        Some(session) => match session.current_user {
            None => Ok(false),
            Some(current) => match uuid_parse(user_id) {
                None => Err(Abort::InvalidUserId),
                Some(id) => Ok(current == id),
            },
        },
    }
}

/// Checks whether the session is signed in as `user`, the existing holder of
/// the e-mail address being registered.
pub fn registering_user_signed_in(user: &user::Model, auth: &Option<AuthSessionInfo>) -> (r:
    Result<bool, Abort>)
    ensures
        r == signed_in_as(user.id@, *auth),
        auth is None ==> r == Err::<bool, Abort>(Abort::NoAuthSession),
        auth is Some && auth.unwrap().current_user is None ==> r == Ok::<bool, Abort>(false),
        auth is Some && auth.unwrap().current_user is Some ==> r == match uuid_parse(user.id@) {
            Some(id) => Ok::<bool, Abort>(auth.unwrap().current_user.unwrap() == id),
            None => Err(Abort::InvalidUserId),
        },
{
    match auth {
        None => Err(Abort::NoAuthSession),
        Some(session) => match session.current_user {
            None => Ok(false),
            Some(current) => match parse_uuid(user.id.as_str()) {
                None => Err(Abort::InvalidUserId),
                Some(id) => Ok(current == id),
            },
        },
    }
}

/// The registration session that follows a started ceremony: `None` where
/// `webauthn-rs` refused to start it, else the challenge for the browser and
/// the session holding the ceremony state, the e-mail address and the new
/// user's id.
pub fn registration_session(
    email: &str,
    user_id: u128,
    started: Option<(CreationChallengeResponse, PasskeyRegistration)>,
) -> (r: Option<(CreationChallengeResponse, RegistrationSessionInfo)>)
    ensures
        r is Some == started is Some,
        r matches Some((challenge, info)) ==> {
            &&& challenge == started.unwrap().0
            &&& info.reg_state == started.unwrap().1
            &&& info.email@ == email@
            &&& info.unique_user_id == user_id
        },
{
    match started {
        None => None,
        Some((challenge, reg_state)) => Some(
            (
                challenge,
                RegistrationSessionInfo {
                    reg_state,
                    email: email.to_owned(),
                    unique_user_id: user_id,
                },
            ),
        ),
    }
}

/// Starts registering a passkey for `email` under a fresh random (version 4) user id,
/// with the address as both user name and display name and no credential
/// excluded. Where `webauthn-rs` starts the ceremony, the result holds the
/// challenge for the browser and the registration session to store.
pub fn begin_registration(state: &AuthState, email: &str) -> (r: Option<
    (CreationChallengeResponse, RegistrationSessionInfo),
>)
    ensures
        r is Some <==> email@.len() > 0,
        r matches Some((challenge, info)) ==> {
            &&& info.email@ == email@
            &&& is_v4_uuid(info.unique_user_id)
            &&& creation_challenge(challenge) == registration_challenge(info.reg_state)
            &&& challenge_user_handle(challenge) == uuid_bytes(info.unique_user_id)
            &&& challenge_user_name(challenge) == email@
            &&& challenge_user_display_name(challenge) == email@
            &&& challenge_excluded_credentials(challenge) == Some(Seq::<CredentialID>::empty())
        },
{
    let user_id = new_uuid();
    let exclude: Vec<CredentialID> = Vec::new();
    let started = start_passkey_registration(state.webauthn(), user_id, email, email, Some(exclude));
    registration_session(email, user_id, started)
}

// ---------------------------------------------------------------------------
// Finishing a registration
// ---------------------------------------------------------------------------

/// The user record made for a registration whose e-mail address has no
/// account yet.
pub open spec fn is_new_user(u: user::Model, info: RegistrationSessionInfo) -> bool {
    &&& u.id@ == uuid_text(info.unique_user_id)
    &&& u.email@ == info.email@
    &&& u.role@ == "user"@
    &&& u.created_at@ == Seq::<char>::empty()
    &&& u.last_authenticated@ == Seq::<char>::empty()
}

/// The account to create for a registration: the registration's id as text,
/// its e-mail address, the role `user`, and empty timestamps. Its stored id
/// reads back as the registration's id.
pub fn new_user(info: &RegistrationSessionInfo) -> (u: user::Model)
    ensures
        is_new_user(u, *info),
        uuid_parse(u.id@) == Some(info.unique_user_id),
{
    user::Model {
        id: uuid_string(info.unique_user_id),
        email: info.email.as_str().to_owned(),
        role: "user".to_owned(),
        created_at: String::new(),
        last_authenticated: String::new(),
    }
}

/// `created` is the account to create for a registration, given the account
/// found for its e-mail address: none where one was found, else the one made
/// by [`new_user`].
pub open spec fn account_created(
    existing: Option<user::Model>,
    info: RegistrationSessionInfo,
    created: Option<user::Model>,
) -> bool {
    &&& (created is Some <==> existing is None)
    &&& (created matches Some(u) ==> is_new_user(u, info))
}

/// The account to create before finishing a registration: the one made by
/// [`new_user`] where no account holds the registration's e-mail address,
/// none where one does.
pub fn account_to_create(existing: &Option<user::Model>, info: &RegistrationSessionInfo) -> (r:
    Option<user::Model>)
    ensures
        account_created(*existing, *info, r),
        r matches Some(u) ==> uuid_parse(u.id@) == Some(info.unique_user_id),
{
    match existing {
        Some(_) => None,
        None => Some(new_user(info)),
    }
}

/// What happens to the authentication session once the new key is stored.
#[derive(Clone, Debug)]
pub enum SignInAfterKey {
    /// The session is left as it is.
    Unchanged,
    /// The session becomes this one.
    SignIn(AuthSessionInfo),
    /// The handler gives up: the new user's stored id is not a UUID.
    InvalidUserId,
}

/// How a registration ends.
pub enum RegistrationFinish {
    /// No user holds the registration's e-mail address, even after creating one.
    UserNotFound,
    /// `webauthn-rs` rejected the browser's credential.
    Rejected,
    /// The handler gives up: the request names no key name.
    KeyMissingName,
    /// The handler gives up: the request names no key colour.
    KeyMissingColor,
    /// The handler gives up: the passkey could not be written as JSON.
    CredentialUnencodable,
    /// The key to store, and what then happens to the session.
    Accepted { key: key::Model, sign_in: SignInAfterKey },
}

/// The key stored for a registered passkey.
pub open spec fn is_new_key(
    key: key::Model,
    key_id: u128,
    owner: Seq<char>,
    name: Seq<char>,
    color: Seq<char>,
    credential: Seq<char>,
) -> bool {
    &&& key.id@ == uuid_text(key_id)
    &&& key.user_id@ == owner
    &&& key.name@ == name
    &&& key.color@ == color
    &&& key.created_at@ == Seq::<char>::empty()
    &&& key.last_used@ == Seq::<char>::empty()
    &&& key.credential@ == credential
}

/// After a key is stored, a user who already had an account keeps the session
/// as it is; a user created by this registration is signed in.
pub open spec fn sign_in_after_key(user_id: Seq<char>, user_already_existed: bool) -> SignInAfterKey {
    if user_already_existed {
        SignInAfterKey::Unchanged
    } else {
        match uuid_parse(user_id) {
            Some(id) => SignInAfterKey::SignIn(signed_in_session(id)),
            None => SignInAfterKey::InvalidUserId,
        }
    }
}

/// How an accepted credential ends the registration of `user_id`, given the
/// id chosen for the key, the passkey's JSON (`None` where it could not be
/// written) and the key's name and colour from the request.
pub open spec fn registration_decided(
    r: RegistrationFinish,
    user_id: Seq<char>,
    user_already_existed: bool,
    key_id: u128,
    credential: Option<Seq<char>>,
    name: Option<Seq<char>>,
    color: Option<Seq<char>>,
) -> bool {
    match name {
        None => r is KeyMissingName,
        Some(name) => match color {
            None => r is KeyMissingColor,
            Some(color) => match credential {
                None => r is CredentialUnencodable,
                Some(credential) => {
                    &&& r matches RegistrationFinish::Accepted { key, sign_in }
                    &&& is_new_key(r->key, key_id, user_id, name, color, credential)
                    &&& r->sign_in == sign_in_after_key(user_id, user_already_existed)
                },
            },
        },
    }
}

/// Decides how an accepted credential ends the registration of `user`.
pub fn decide_registration(
    user: &user::Model,
    user_already_existed: bool,
    key_id: u128,
    credential: Option<String>,
    name: Option<String>,
    color: Option<String>,
) -> (r: RegistrationFinish)
    ensures
        registration_decided(
            r,
            user.id@,
            user_already_existed,
            key_id,
            credential.deep_view(),
            name.deep_view(),
            color.deep_view(),
        ),
        r is Accepted <==> (name is Some && color is Some && credential is Some),
        r is Accepted ==> {
            &&& r->key.name@ == name.unwrap()@
            &&& r->key.color@ == color.unwrap()@
            &&& r->key.credential@ == credential.unwrap()@
            &&& r->key.user_id@ == user.id@
            &&& r->key.id@ == uuid_text(key_id)
        },
{
    let name = match name {
        Some(name) => name,
        None => return RegistrationFinish::KeyMissingName,
    };
    let color = match color {
        Some(color) => color,
        None => return RegistrationFinish::KeyMissingColor,
    };
    let credential = match credential {
        Some(credential) => credential,
        None => return RegistrationFinish::CredentialUnencodable,
    };
    let key = key::Model {
        id: uuid_string(key_id),
        user_id: user.id.as_str().to_owned(),
        name,
        color,
        created_at: String::new(),
        last_used: String::new(),
        credential,
    };
    let sign_in = if user_already_existed {
        SignInAfterKey::Unchanged
    } else {
        match parse_uuid(user.id.as_str()) {
            Some(id) => SignInAfterKey::SignIn(AuthSessionInfo::signed_in(id)),
            None => SignInAfterKey::InvalidUserId,
        }
    };
    RegistrationFinish::Accepted { key, sign_in }
}

/// Finishes a registration. `user` is the account found for the
/// registration's e-mail address once one has been created where none
/// existed; `user_already_existed` says whether there was one before. The
/// browser's credential is checked by `webauthn-rs` against the stored
/// ceremony; if it is accepted, the new key gets a fresh random id and the
/// passkey is stored as JSON.
pub fn finish_registration(
    state: &AuthState,
    data: &RegisterPublicKeyCredential,
    info: &RegistrationSessionInfo,
    user: &Option<user::Model>,
    user_already_existed: bool,
    name: Option<String>,
    color: Option<String>,
) -> (r: RegistrationFinish)
    ensures
        user is None <==> r is UserNotFound,
        user is Some ==> (r is Rejected <==> passkey_registration(
            state.relying_party(),
            *data,
            info.reg_state,
        ) is None),
        user matches Some(u) ==> (passkey_registration(state.relying_party(), *data, info.reg_state)
            matches Some(passkey) ==> exists|key_id: u128|
            is_v4_uuid(key_id) && registration_decided(
                r,
                u.id@,
                user_already_existed,
                key_id,
                passkey_json(passkey),
                name.deep_view(),
                color.deep_view(),
            )),
{
    match user {
        None => RegistrationFinish::UserNotFound,
        Some(user) => match finish_passkey_registration(state.webauthn(), data, &info.reg_state) {
            None => RegistrationFinish::Rejected,
            Some(passkey) => {
                let key_id = new_uuid();
                let credential = passkey_to_json(&passkey);
                let ghost credential_view = credential.deep_view();
                let r = decide_registration(
                    user,
                    user_already_existed,
                    key_id,
                    credential,
                    name,
                    color,
                );
                assert(registration_decided(
                    r,
                    user.id@,
                    user_already_existed,
                    key_id,
                    credential_view,
                    name.deep_view(),
                    color.deep_view(),
                ));
                r
            },
        },
    }
}

// ---------------------------------------------------------------------------
// Starting an authentication
// ---------------------------------------------------------------------------

/// Whether every stored credential of the keys reads back as a passkey.
pub open spec fn credentials_readable(keys: Seq<key::Model>) -> bool {
    forall|i: int| 0 <= i < keys.len() ==> passkey_json_accepted(#[trigger] keys[i].credential@)
}

/// The passkeys stored in `keys`, in order, where every one reads back.
pub open spec fn stored_passkeys(keys: Seq<key::Model>) -> Seq<Passkey> {
    Seq::new(keys.len(), |i: int| passkey_parse(keys[i].credential@).unwrap())
}

/// The passkeys stored in `keys`, in order; `None` where one of them does not
/// read back.
pub fn read_passkeys(keys: &Vec<key::Model>) -> (r: Option<Vec<Passkey>>)
    ensures
        r is Some == credentials_readable(keys@),
        r matches Some(passkeys) ==> passkeys@ == stored_passkeys(keys@),
        r matches Some(passkeys) ==> passkeys.len() == keys.len(),
        r matches Some(passkeys) ==> forall|i: int|
            0 <= i < keys.len() ==> #[trigger] passkeys@[i] == passkey_parse(
                keys@[i].credential@,
            ).unwrap(),
{
    let mut passkeys: Vec<Passkey> = Vec::new();
    let mut i: usize = 0;
    while i < keys.len()
        invariant
            i <= keys.len(),
            passkeys.len() == i,
            forall|j: int| 0 <= j < i ==> passkey_json_accepted(#[trigger] keys@[j].credential@),
            forall|j: int|
                0 <= j < i ==> passkeys@[j] == passkey_parse(#[trigger] keys@[j].credential@).unwrap(),
        decreases keys.len() - i,
    {
        match passkey_from_json(keys[i].credential.as_str()) {
            Some(passkey) => passkeys.push(passkey),
            None => return None,
        }
        i = i + 1;
    }
    assert(passkeys@ =~= stored_passkeys(keys@));
    Some(passkeys)
}

/// How starting an authentication ends.
pub enum AuthenticationStart {
    /// The challenge for the browser and the session to store.
    Challenge { challenge: RequestChallengeResponse, session: AuthSessionInfo },
    /// `webauthn-rs` refused to start the ceremony.
    Refused,
    /// The handler gives up: a stored credential does not read back as a passkey.
    UnreadableCredential,
    /// The handler gives up: the user's stored id is not a UUID.
    InvalidUserId,
}

/// How a started (or refused) ceremony ends the start of an authentication
/// of the user with stored id `user_id`: the session that follows records
/// that user's authentication as under way, with nobody signed in.
pub open spec fn authentication_started(
    r: AuthenticationStart,
    user_id: Seq<char>,
    started: Option<(RequestChallengeResponse, PasskeyAuthentication)>,
) -> bool {
    match started {
        None => r is Refused,
        Some((challenge, ceremony)) => match uuid_parse(user_id) {
            None => r is InvalidUserId,
            Some(id) => r == AuthenticationStart::Challenge {
                challenge,
                session: pending_session(id, ceremony),
            },
        },
    }
}

/// Decides how the start of an authentication of `user` ends, given what
/// `webauthn-rs` answered.
pub fn decide_authentication_start(
    user: &user::Model,
    started: Option<(RequestChallengeResponse, PasskeyAuthentication)>,
) -> (r: AuthenticationStart)
    ensures
        authentication_started(r, user.id@, started),
{
    match started {
        None => AuthenticationStart::Refused,
        Some((challenge, ceremony)) => match parse_uuid(user.id.as_str()) {
            None => AuthenticationStart::InvalidUserId,
            Some(id) => AuthenticationStart::Challenge {
                challenge,
                session: AuthSessionInfo::pending(id, ceremony),
            },
        },
    }
}

/// Starts authenticating `user` with the passkeys stored in `keys`.
pub fn begin_authentication(state: &AuthState, user: &user::Model, keys: &Vec<key::Model>) -> (r:
    AuthenticationStart)
    ensures
        r is UnreadableCredential <==> !credentials_readable(keys@),
        credentials_readable(keys@) ==> exists|
            started: Option<(RequestChallengeResponse, PasskeyAuthentication)>,
        |
            started is Some && authentication_started(r, user.id@, started),
        credentials_readable(keys@) && uuid_parse(user.id@) is None ==> r is InvalidUserId,
        credentials_readable(keys@) && uuid_parse(user.id@) is Some ==> {
            &&& r matches AuthenticationStart::Challenge { session, .. }
            &&& r->session.current_user is None
            &&& r->session.authentication_id == uuid_parse(user.id@)
            &&& r->session.auth_state is Some
            &&& ceremony_passkeys(r->session.auth_state.unwrap()) == stored_passkeys(keys@)
            &&& request_challenge(r->challenge) == ceremony_challenge(r->session.auth_state.unwrap())
        },
{
    match read_passkeys(keys) {
        None => AuthenticationStart::UnreadableCredential,
        Some(passkeys) => {
            let started = start_passkey_authentication(state.webauthn(), passkeys.as_slice());
            let ghost seen = started;
            let r = decide_authentication_start(user, started);
            assert(authentication_started(r, user.id@, seen));
            r
        },
    }
}

// ---------------------------------------------------------------------------
// Finishing an authentication
// ---------------------------------------------------------------------------

/// The authentication under way in a session: its user and ceremony state.
pub open spec fn pending_of(session: Option<AuthSessionInfo>) -> Option<
    (u128, PasskeyAuthentication),
> {
    match session {
        Some(s) => match s.authentication_id {
            Some(id) => match s.auth_state {
                Some(ceremony) => Some((id, ceremony)),
                None => None,
            },
            None => None,
        },
        None => None,
    }
}

/// Takes the authentication under way out of the session; `None` (the
/// handler gives up) where there is no session or nothing under way.
pub fn pending_authentication(session: Option<AuthSessionInfo>) -> (r: Option<
    (u128, PasskeyAuthentication),
>)
    ensures
        r == pending_of(session),
{
    match session {
        Some(s) => match s.authentication_id {
            Some(id) => match s.auth_state {
                Some(ceremony) => Some((id, ceremony)),
                None => None,
            },
            None => None,
        },
        None => None,
    }
}

/// How an authentication ends once the session has been wiped: where the
/// browser's assertion was verified, `200` and the session signed in as the
/// user; else `400` and the session left wiped.
pub open spec fn authentication_outcome(user: u128, verified: bool) -> (
    HttpStatus,
    Option<AuthSessionInfo>,
) {
    if verified {
        (HttpStatus::Success, Some(signed_in_session(user)))
    } else {
        (HttpStatus::BadRequest, None)
    }
}

/// Decides how an authentication of `user` ends.
pub fn decide_authentication(user: u128, verified: bool) -> (r: (HttpStatus, Option<AuthSessionInfo>))
    ensures
        r == authentication_outcome(user, verified),
{
    if verified {
        (HttpStatus::Success, Some(AuthSessionInfo::signed_in(user)))
    } else {
        (HttpStatus::BadRequest, None)
    }
}

/// Finishes the authentication of `user`: `webauthn-rs` checks the browser's
/// assertion against the ceremony that was under way.
pub fn finish_authentication(
    state: &AuthState,
    data: &PublicKeyCredential,
    user: u128,
    ceremony: &PasskeyAuthentication,
) -> (r: (HttpStatus, Option<AuthSessionInfo>))
    ensures
        r == authentication_outcome(
            user,
            assertion_verified(state.relying_party(), *data, *ceremony),
        ),
{
    let verified = finish_passkey_authentication(state.webauthn(), data, ceremony);
    decide_authentication(user, verified)
}

// ---------------------------------------------------------------------------
// Redirects
// ---------------------------------------------------------------------------

/// Where an unauthenticated visitor is sent: the sign-in page of the site,
/// with the page they asked for percent-encoded as the `redirect` parameter.
pub open spec fn sign_in_redirect_text(rp_id: Seq<char>, redirect: Seq<char>) -> Seq<char> {
    https_origin(rp_id) + "/?redirect="@ + url_encoded(redirect)
}

/// The sign-in URL that sends the visitor back to `redirect` afterwards.
pub fn sign_in_redirect(rp_id: &str, redirect: &str) -> (r: String)
    ensures
        r@ == sign_in_redirect_text(rp_id@, redirect@),
{
    let encoded = url_encode(redirect);
    let mut target = rp_origin(rp_id);
    target.append("/?redirect=");
    target.append(encoded.as_str());
    target
}

// ---------------------------------------------------------------------------
// Laws
// ---------------------------------------------------------------------------

/// The passkeys read from stored keys are one per key, in order: the `i`-th
/// is the parse of the `i`-th key's credential.
pub proof fn law_stored_passkeys_are_one_per_key(keys: Seq<key::Model>)
    ensures
        stored_passkeys(keys).len() == keys.len(),
        forall|i: int|
            0 <= i < keys.len() ==> #[trigger] stored_passkeys(keys)[i] == passkey_parse(
                keys[i].credential@,
            ).unwrap(),
{
}

/// The relying party is set up at the https origin of its id, under the name
/// `Moat`, and exactly where that origin parses and its domain suits the id.
pub proof fn law_relying_party_uses_the_https_origin(rp_id: Seq<char>)
    ensures
        relying_party_configurable(rp_id) == (url_parse("https://"@ + rp_id) is Some
            && domain_accepts_rp_id(rp_id, url_domain(url_parse("https://"@ + rp_id).unwrap()))),
        relying_party_for(rp_id) == relying_party_built(
            builder_named(builder_for(rp_id, url_parse("https://"@ + rp_id).unwrap()), "Moat"@),
        ),
{
}

/// An accepted registration stores the key under the requested name and
/// colour, with the passkey's JSON, for the account found, whether or not
/// that account existed before; it is accepted exactly where the name, the
/// colour and the JSON are all there.
pub proof fn law_accepted_key_keeps_name_and_colour(
    r: RegistrationFinish,
    user_id: Seq<char>,
    user_already_existed: bool,
    key_id: u128,
    credential: Option<Seq<char>>,
    name: Option<Seq<char>>,
    color: Option<Seq<char>>,
)
    requires
        registration_decided(r, user_id, user_already_existed, key_id, credential, name, color),
    ensures
        r is Accepted <==> (name is Some && color is Some && credential is Some),
        r is Accepted ==> {
            &&& r->key.name@ == name.unwrap()
            &&& r->key.color@ == color.unwrap()
            &&& r->key.credential@ == credential.unwrap()
            &&& r->key.user_id@ == user_id
        },
{
}

/// The check before a registration gives up only where there is no session,
/// or where someone is signed in and the account's stored id is not a UUID.
/// Where a session exists with nobody signed in, whatever else it holds (an
/// authentication under way included), the answer is "not signed in as that
/// account".
pub proof fn law_registration_check_gives_up_only_without_session(
    user_id: Seq<char>,
    auth: Option<AuthSessionInfo>,
)
    ensures
        auth is None ==> signed_in_as(user_id, auth) == Err::<bool, Abort>(Abort::NoAuthSession),
        auth is Some && auth.unwrap().current_user is None ==> signed_in_as(user_id, auth) == Ok::<
            bool,
            Abort,
        >(false),
        signed_in_as(user_id, auth) is Err ==> (auth is None || (auth.unwrap().current_user is Some
            && uuid_parse(user_id) is None)),
        auth is Some && auth.unwrap().current_user is Some && uuid_parse(user_id) is Some
            ==> signed_in_as(user_id, auth) == Ok::<bool, Abort>(
            auth.unwrap().current_user.unwrap() == uuid_parse(user_id).unwrap(),
        ),
{
}

/// Whether no two accounts share an e-mail address.
pub open spec fn emails_distinct(users: Seq<user::Model>) -> bool {
    forall|i: int, j: int|
        0 <= i < j < users.len() ==> (#[trigger] users[i]).email@ != (#[trigger] users[j]).email@
}

/// Whether an account holds the e-mail address.
pub open spec fn holds_email(users: Seq<user::Model>, email: Seq<char>) -> bool {
    exists|i: int| 0 <= i < users.len() && (#[trigger] users[i]).email@ == email
}

/// The accounts once the account to create, if any, is added.
pub open spec fn users_after(users: Seq<user::Model>, created: Option<user::Model>) -> Seq<
    user::Model,
> {
    match created {
        Some(u) => users.push(u),
        None => users,
    }
}

/// A registration never gives an e-mail address a second account: where the
/// lookup by the registration's address finds an account exactly when one
/// holds it, the accounts keep distinct addresses, and where one already held
/// it they stay as they were.
pub proof fn law_registration_keeps_one_account_per_email(
    users: Seq<user::Model>,
    info: RegistrationSessionInfo,
    existing: Option<user::Model>,
    created: Option<user::Model>,
)
    requires
        emails_distinct(users),
        existing is Some <==> holds_email(users, info.email@),
        account_created(existing, info, created),
    ensures
        emails_distinct(users_after(users, created)),
        holds_email(users, info.email@) ==> users_after(users, created) == users,
{
    if let Some(u) = created {
        let after = users.push(u);
        assert forall|i: int, j: int| 0 <= i < j < after.len() implies (#[trigger] after[i]).email@
            != (#[trigger] after[j]).email@ by {
            if j == users.len() {
                assert(after[i] == users[i]);
                if users[i].email@ == info.email@ {
                    assert(holds_email(users, info.email@));
                }
            } else {
                assert(after[i] == users[i] && after[j] == users[j]);
            }
        }
    }
}

/// Starting an authentication signs the session out of any user and records
/// the authentication as under way for the user found by e-mail address;
/// finishing it with a verified assertion signs in exactly that user.
pub proof fn law_authentication_signs_in_the_started_user(
    r: AuthenticationStart,
    user_id: Seq<char>,
    started: Option<(RequestChallengeResponse, PasskeyAuthentication)>,
)
    requires
        authentication_started(r, user_id, started),
        r is Challenge,
    ensures
        uuid_parse(user_id) is Some,
        r->session.current_user is None,
        pending_of(Some(r->session)) matches Some((id, ceremony)) && {
            &&& uuid_parse(user_id) == Some(id)
            &&& ceremony == started.unwrap().1
            &&& authentication_outcome(id, true) == (
                HttpStatus::Success,
                Some(signed_in_session(id)),
            )
        },
{
}

/// Signing out stores the same session whatever the session was before, a
/// signed-in user or an authentication under way included: it holds no user
/// and nothing under way, the guard finds no user in it, no authentication
/// can be finished from it, and signing out again leaves it as it is.
pub proof fn law_sign_out_forgets_the_session(before: Option<AuthSessionInfo>)
    ensures
        signed_out_session().current_user is None,
        signed_out_session().authentication_id is None,
        signed_out_session().auth_state is None,
        session_user_text(Some(signed_out_session())) is None,
        pending_of(Some(signed_out_session())) is None,
        signed_out_session().well_formed(),
{
}

/// The session is wiped before the assertion is checked, and a failed check
/// leaves it wiped: nobody is signed in, and the challenge cannot be answered
/// a second time.
pub proof fn law_failed_authentication_leaves_no_one_signed_in(user: u128)
    ensures
        pending_of(Some(signed_out_session())) is None,
        signed_out_session().current_user is None,
        authentication_outcome(user, false) == (HttpStatus::BadRequest, None::<AuthSessionInfo>),
{
}

/// A verified assertion answers `200` and signs the user in; a rejected one
/// answers `400` and signs nobody in.
pub proof fn law_authentication_status(user: u128, verified: bool)
    ensures
        status_code(authentication_outcome(user, verified).0) == (if verified {
            200u16
        } else {
            400u16
        }),
        (authentication_outcome(user, verified).1 is Some) == verified,
{
}

/// A registration stores the key under the account found for the e-mail
/// address. It leaves the session alone for an account that existed before,
/// and signs in an account that it created, under the id that account's
/// stored id reads back as: for the account made by [`new_user`], the id
/// chosen when the registration started.
pub proof fn law_registration_signs_in_only_the_new_user(
    r: RegistrationFinish,
    user: user::Model,
    info: RegistrationSessionInfo,
    user_already_existed: bool,
    key_id: u128,
    credential: Option<Seq<char>>,
    name: Option<Seq<char>>,
    color: Option<Seq<char>>,
)
    requires
        registration_decided(r, user.id@, user_already_existed, key_id, credential, name, color),
        r is Accepted,
    ensures
        r->key.user_id@ == user.id@,
        user_already_existed ==> r->sign_in is Unchanged,
        (!user_already_existed && uuid_parse(user.id@) == Some(info.unique_user_id))
            ==> r->sign_in == SignInAfterKey::SignIn(signed_in_session(info.unique_user_id)),
{
}

/// The sign-in redirect is the site's origin, `/?redirect=` and the requested
/// page percent-encoded: the encoded part holds only unreserved characters,
/// `%` and hexadecimal digits, so it stays one query value.
pub proof fn law_sign_in_redirect_keeps_the_page_in_its_parameter(
    rp_id: Seq<char>,
    redirect: Seq<char>,
)
    ensures
        sign_in_redirect_text(rp_id, redirect) == "https://"@ + rp_id + "/?redirect="@
            + url_encoded(redirect),
        forall|i: int|
            0 <= i < url_encoded(redirect).len() ==> is_encoded_char(
                #[trigger] url_encoded(redirect)[i],
            ),
{
    lemma_percent_encoded_is_query_safe(encode_utf8(redirect));
}

} // verus!
