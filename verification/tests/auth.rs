use moat::auth::{
    account_to_create, begin_authentication, begin_registration, decide_authentication,
    decide_authentication_start, decide_registration, finish_authentication,
    finish_registration, new_user, pending_authentication, read_passkeys,
    registering_user_signed_in, registration_session, rp_origin, sign_in_redirect, Abort,
    AuthState, AuthenticationStart, HttpStatus, RegistrationFinish, SignInAfterKey,
    AUTHENTICATED_MESSAGE, RP_NAME, SIGN_OUT_TARGET,
};
use moat::db::user::session_user_id;
use moat::entity::{key, user};
use moat::ids::{parse_uuid, uuid_string};
use moat::models::{AuthSessionInfo, RegistrationSessionInfo};
use webauthn_rs::prelude::{PublicKeyCredential, RegisterPublicKeyCredential};
use webauthn_rs_proto::{AuthenticatorAssertionResponseRaw, AuthenticatorAttestationResponseRaw};

const ALICE: u128 = 0x67e5_5044_10b1_426f_9247_bb68_0e5f_e0c8;
const ALICE_ID: &str = "67e55044-10b1-426f-9247-bb680e5fe0c8";

fn alice() -> user::Model {
    user::Model {
        id: ALICE_ID.to_string(),
        email: "alice@example.com".to_string(),
        role: "user".to_string(),
        created_at: String::new(),
        last_authenticated: String::new(),
    }
}

fn with_id(id: &str) -> user::Model {
    user::Model { id: id.to_string(), ..alice() }
}

fn relying_party() -> AuthState {
    AuthState::new("example.com").expect("the relying party is configured")
}

fn registration(email: &str) -> RegistrationSessionInfo {
    begin_registration(&relying_party(), email).expect("registration starts").1
}

fn pending(state: &AuthState, user: &user::Model) -> AuthSessionInfo {
    match begin_authentication(state, user, &Vec::new()) {
        AuthenticationStart::Challenge { session, .. } => session,
        _ => panic!("authentication starts"),
    }
}

fn bogus_assertion() -> PublicKeyCredential {
    PublicKeyCredential {
        id: "AAAA".to_string(),
        raw_id: vec![0u8, 0, 0].into(),
        response: AuthenticatorAssertionResponseRaw {
            authenticator_data: vec![1u8, 2, 3].into(),
            client_data_json: b"{}".to_vec().into(),
            signature: vec![4u8, 5, 6].into(),
            user_handle: None,
        },
        extensions: Default::default(),
        type_: "public-key".to_string(),
    }
}

fn bogus_attestation() -> RegisterPublicKeyCredential {
    RegisterPublicKeyCredential {
        id: "AAAA".to_string(),
        raw_id: vec![0u8, 0, 0].into(),
        response: AuthenticatorAttestationResponseRaw {
            attestation_object: vec![1u8, 2, 3].into(),
            client_data_json: b"{}".to_vec().into(),
            transports: None,
        },
        type_: "public-key".to_string(),
        extensions: Default::default(),
    }
}

#[test]
fn status_codes() {
    assert_eq!(HttpStatus::Success.code(), 200);
    assert_eq!(HttpStatus::BadRequest.code(), 400);
    assert_eq!(HttpStatus::NotFound.code(), 404);
}

#[test]
fn constants() {
    assert_eq!(RP_NAME, "Moat");
    assert_eq!(AUTHENTICATED_MESSAGE, "Successfully Authenticated!");
    assert_eq!(SIGN_OUT_TARGET, "/");
}

#[test]
fn origin_is_https_at_the_relying_party_id() {
    assert_eq!(rp_origin("example.com"), "https://example.com");
}

#[test]
fn relying_party_needs_a_parsable_origin() {
    assert!(AuthState::new("example.com").is_some());
    assert!(AuthState::new("").is_none());
    assert!(AuthState::new("exa mple.com").is_none());
}

#[test]
fn redirect_keeps_the_page_in_its_parameter() {
    assert_eq!(
        sign_in_redirect("moat.example", "https://app.example/x?y=1&z=2"),
        "https://moat.example/?redirect=https%3A%2F%2Fapp.example%2Fx%3Fy%3D1%26z%3D2"
    );
    assert_eq!(sign_in_redirect("moat.example", ""), "https://moat.example/?redirect=");
}

#[test]
fn existing_user_without_auth_session_aborts() {
    assert_eq!(registering_user_signed_in(&alice(), &None), Err(Abort::NoAuthSession));
}

#[test]
fn existing_user_signed_in_check() {
    let nobody = Some(AuthSessionInfo::signed_out());
    assert_eq!(registering_user_signed_in(&alice(), &nobody), Ok(false));
    let alice_in = Some(AuthSessionInfo::signed_in(ALICE));
    assert_eq!(registering_user_signed_in(&alice(), &alice_in), Ok(true));
    let other_in = Some(AuthSessionInfo::signed_in(ALICE + 1));
    assert_eq!(registering_user_signed_in(&alice(), &other_in), Ok(false));
    assert_eq!(
        registering_user_signed_in(&with_id("garbage"), &alice_in),
        Err(Abort::InvalidUserId)
    );
    assert_eq!(registering_user_signed_in(&with_id("garbage"), &nobody), Ok(false));
}

#[test]
fn registration_starts_for_the_email() {
    let info = registration("bob@example.com");
    assert_eq!(info.email, "bob@example.com");
    let other = registration("bob@example.com");
    assert_ne!(info.unique_user_id, other.unique_user_id);
}

#[test]
fn refused_registration_has_no_session() {
    assert!(registration_session("bob@example.com", ALICE, None).is_none());
}

#[test]
fn new_user_record() {
    let mut info = registration("carol@example.com");
    info.unique_user_id = ALICE;
    let u = new_user(&info);
    assert_eq!(u.id, ALICE_ID);
    assert_eq!(u.email, "carol@example.com");
    assert_eq!(u.role, "user");
    assert_eq!(u.created_at, "");
    assert_eq!(u.last_authenticated, "");
    assert_eq!(parse_uuid(&u.id), Some(ALICE));
}

#[test]
fn registration_without_key_name_or_colour_aborts() {
    let json = Some("{}".to_string());
    assert!(matches!(
        decide_registration(&alice(), false, 7, json.clone(), None, Some("red".into())),
        RegistrationFinish::KeyMissingName
    ));
    assert!(matches!(
        decide_registration(&alice(), false, 7, json.clone(), Some("laptop".into()), None),
        RegistrationFinish::KeyMissingColor
    ));
    assert!(matches!(
        decide_registration(&alice(), false, 7, None, Some("laptop".into()), Some("red".into())),
        RegistrationFinish::CredentialUnencodable
    ));
}

#[test]
fn registration_of_a_new_user_signs_them_in() {
    let r = decide_registration(
        &alice(),
        false,
        1,
        Some("{\"cred\":1}".to_string()),
        Some("laptop".to_string()),
        Some("red".to_string()),
    );
    match r {
        RegistrationFinish::Accepted { key, sign_in } => {
            assert_eq!(
                key,
                key::Model {
                    id: "00000000-0000-0000-0000-000000000001".to_string(),
                    user_id: ALICE_ID.to_string(),
                    name: "laptop".to_string(),
                    color: "red".to_string(),
                    created_at: String::new(),
                    last_used: String::new(),
                    credential: "{\"cred\":1}".to_string(),
                }
            );
            match sign_in {
                SignInAfterKey::SignIn(s) => {
                    assert_eq!(s.current_user, Some(ALICE));
                    assert_eq!(s.authentication_id, None);
                    assert!(s.auth_state.is_none());
                }
                _ => panic!("the new user is signed in"),
            }
        }
        _ => panic!("accepted"),
    }
}

#[test]
fn registration_for_an_existing_user_keeps_the_session() {
    let r = decide_registration(
        &alice(),
        true,
        1,
        Some("{}".to_string()),
        Some("phone".to_string()),
        Some("blue".to_string()),
    );
    assert!(matches!(
        r,
        RegistrationFinish::Accepted { sign_in: SignInAfterKey::Unchanged, .. }
    ));
}

#[test]
fn registration_of_a_user_with_a_bad_id_aborts_after_the_key() {
    let r = decide_registration(
        &with_id("garbage"),
        false,
        1,
        Some("{}".to_string()),
        Some("phone".to_string()),
        Some("blue".to_string()),
    );
    match r {
        RegistrationFinish::Accepted { key, sign_in } => {
            assert_eq!(key.user_id, "garbage");
            assert!(matches!(sign_in, SignInAfterKey::InvalidUserId));
        }
        _ => panic!("accepted"),
    }
}

#[test]
fn registration_without_user_is_not_found() {
    let state = relying_party();
    let info = registration("dave@example.com");
    let r = finish_registration(&state, &bogus_attestation(), &info, &None, false, None, None);
    assert!(matches!(r, RegistrationFinish::UserNotFound));
}

#[test]
fn registration_with_a_bad_credential_is_rejected() {
    let state = relying_party();
    let info = registration("dave@example.com");
    let user = Some(new_user(&info));
    let r = finish_registration(
        &state,
        &bogus_attestation(),
        &info,
        &user,
        false,
        Some("k".to_string()),
        Some("c".to_string()),
    );
    assert!(matches!(r, RegistrationFinish::Rejected));
}

#[test]
fn unreadable_credentials() {
    let bad = key::Model {
        id: uuid_string(3),
        user_id: ALICE_ID.to_string(),
        name: "k".to_string(),
        color: "c".to_string(),
        created_at: String::new(),
        last_used: String::new(),
        credential: "not json".to_string(),
    };
    assert!(read_passkeys(&vec![bad.clone()]).is_none());
    assert_eq!(read_passkeys(&Vec::new()).map(|v| v.len()), Some(0));
    assert!(matches!(
        begin_authentication(&relying_party(), &alice(), &vec![bad]),
        AuthenticationStart::UnreadableCredential
    ));
}

#[test]
fn authentication_start_records_the_user() {
    let state = relying_party();
    let session = pending(&state, &alice());
    assert_eq!(session.current_user, None);
    assert_eq!(session.authentication_id, Some(ALICE));
    assert!(session.auth_state.is_some());
    // An authentication under way signs nobody in.
    assert_eq!(session_user_id(&Some(session)), None);
}

#[test]
fn authentication_start_for_a_bad_id_aborts() {
    assert!(matches!(
        begin_authentication(&relying_party(), &with_id("garbage"), &Vec::new()),
        AuthenticationStart::InvalidUserId
    ));
    assert!(matches!(
        decide_authentication_start(&alice(), None),
        AuthenticationStart::Refused
    ));
}

#[test]
fn pending_authentication_needs_a_challenge() {
    assert!(pending_authentication(None).is_none());
    assert!(pending_authentication(Some(AuthSessionInfo::signed_out())).is_none());
    assert!(pending_authentication(Some(AuthSessionInfo::signed_in(ALICE))).is_none());
    let session = pending(&relying_party(), &alice());
    let (user, _) = pending_authentication(Some(session)).expect("pending");
    assert_eq!(user, ALICE);
}

#[test]
fn authentication_outcomes() {
    let (status, session) = decide_authentication(ALICE, true);
    assert_eq!(status, HttpStatus::Success);
    let session = session.expect("signed in");
    assert_eq!(session.current_user, Some(ALICE));
    assert_eq!(session.authentication_id, None);
    let (status, session) = decide_authentication(ALICE, false);
    assert_eq!(status, HttpStatus::BadRequest);
    assert!(session.is_none());
}

#[test]
fn bad_assertion_signs_nobody_in() {
    let state = relying_party();
    let session = pending(&state, &alice());
    let (user, ceremony) = pending_authentication(Some(session)).expect("pending");
    let (status, session) = finish_authentication(&state, &bogus_assertion(), user, &ceremony);
    assert_eq!(status, HttpStatus::BadRequest);
    assert!(session.is_none());
    assert!(pending_authentication(Some(AuthSessionInfo::signed_out())).is_none());
}

#[test]
fn an_account_is_created_only_where_none_exists() {
    let info = registration("frank@example.com");
    let created = account_to_create(&None, &info).expect("created");
    assert_eq!(created.email, "frank@example.com");
    assert_eq!(parse_uuid(&created.id), Some(info.unique_user_id));
    assert!(account_to_create(&Some(alice()), &info).is_none());
}

#[test]
fn registration_needs_an_email() {
    assert!(begin_registration(&relying_party(), "").is_none());
    assert!(begin_registration(&relying_party(), "x").is_some());
}

#[test]
fn relying_party_id_must_be_the_origin_domain() {
    assert!(AuthState::new("127.0.0.1").is_none());
    assert!(AuthState::new("sub.example.com").is_some());
}

#[test]
fn registration_challenge_names_the_email() {
    let (challenge, info) = begin_registration(&relying_party(), "gina@example.com").expect("started");
    let user = &challenge.public_key.user;
    assert_eq!(user.name, "gina@example.com");
    assert_eq!(user.display_name, "gina@example.com");
    assert_eq!(user.id.as_ref(), &info.unique_user_id.to_be_bytes()[..]);
    assert_eq!(challenge.public_key.exclude_credentials.as_ref().map(|v| v.len()), Some(0));
}

#[test]
fn authentication_without_keys_allows_no_credential() {
    match begin_authentication(&relying_party(), &alice(), &Vec::new()) {
        AuthenticationStart::Challenge { challenge, .. } => {
            assert!(challenge.public_key.allow_credentials.is_empty());
        }
        _ => panic!("authentication starts"),
    }
}
