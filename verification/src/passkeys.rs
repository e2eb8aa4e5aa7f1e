//! The WebAuthn relying party: the outside types that the ceremonies carry
//! through, and the calls into `webauthn-rs` and `serde_json` that compute on
//! them.
//!
//! Every value of these types is opaque here: the library passes them on and
//! decides on whether a call succeeded.
use crate::ids::uuid_bytes;
use vstd::prelude::*;
use webauthn_rs::prelude::{
    CredentialID, Passkey, PasskeyAuthentication, PasskeyRegistration, PublicKeyCredential,
    RegisterPublicKeyCredential, Url, Uuid,
};
use webauthn_rs::{Webauthn, WebauthnBuilder};
use webauthn_rs_proto::attest::CreationChallengeResponse;
use webauthn_rs_proto::RequestChallengeResponse;

verus! {

#[verifier::external_type_specification]
#[verifier::external_body]
pub struct ExWebauthn(Webauthn);

#[verifier::external_type_specification]
#[verifier::external_body]
pub struct ExWebauthnBuilder<'a>(WebauthnBuilder<'a>);

#[verifier::external_type_specification]
#[verifier::external_body]
pub struct ExUrl(Url);

#[verifier::external_type_specification]
#[verifier::external_body]
pub struct ExCredentialID(CredentialID);

#[verifier::external_type_specification]
#[verifier::external_body]
pub struct ExPasskey(Passkey);

#[verifier::external_type_specification]
#[verifier::external_body]
pub struct ExPasskeyRegistration(PasskeyRegistration);

#[verifier::external_type_specification]
#[verifier::external_body]
pub struct ExPasskeyAuthentication(PasskeyAuthentication);

#[verifier::external_type_specification]
#[verifier::external_body]
pub struct ExRegisterPublicKeyCredential(RegisterPublicKeyCredential);

#[verifier::external_type_specification]
#[verifier::external_body]
pub struct ExPublicKeyCredential(PublicKeyCredential);

#[verifier::external_type_specification]
#[verifier::external_body]
pub struct ExCreationChallengeResponse(CreationChallengeResponse);

#[verifier::external_type_specification]
#[verifier::external_body]
pub struct ExRequestChallengeResponse(RequestChallengeResponse);

/// Trusted: the derived `Clone` of `PasskeyRegistration`, so that the
/// registration session can be cloned. Nothing is claimed of the copy.
pub assume_specification[ <PasskeyRegistration as Clone>::clone ](
    state: &PasskeyRegistration,
) -> PasskeyRegistration;

/// Trusted: the derived `Clone` of `PasskeyAuthentication`, so that the
/// authentication session can be cloned. Nothing is claimed of the copy.
pub assume_specification[ <PasskeyAuthentication as Clone>::clone ](
    state: &PasskeyAuthentication,
) -> PasskeyAuthentication;

/// What `Url::parse` gives for a text.
pub uninterp spec fn url_parse(text: Seq<char>) -> Option<Url>;

/// Whether `Url::parse` accepts a text.
pub open spec fn url_parses(text: Seq<char>) -> bool {
    url_parse(text) is Some
}

/// What `Url::domain` gives for a URL: its host where that is a domain name
/// (not an IP address), else none.
pub uninterp spec fn url_domain(url: Url) -> Option<Seq<char>>;

/// Whether a relying-party id suits an origin with the given domain: the
/// domain is the id, or ends in `.` followed by the id.
pub open spec fn domain_accepts_rp_id(rp_id: Seq<char>, domain: Option<Seq<char>>) -> bool {
    match domain {
        Some(d) => d == rp_id || (d.len() >= rp_id.len() + 1 && d.subrange(
            d.len() - (rp_id.len() + 1),
            d.len() as int,
        ) == seq!['.'] + rp_id),
        None => false,
    }
}

/// The builder that `WebauthnBuilder::new` gives for an id and an origin.
pub uninterp spec fn builder_for(rp_id: Seq<char>, rp_origin: Url) -> WebauthnBuilder<'static>;

/// The builder that `WebauthnBuilder::rp_name` gives.
pub uninterp spec fn builder_named(builder: WebauthnBuilder, rp_name: Seq<char>) -> WebauthnBuilder;

/// The relying party that `WebauthnBuilder::build` gives.
pub uninterp spec fn relying_party_built(builder: WebauthnBuilder) -> Webauthn;

/// The user handle carried by a registration challenge: the bytes of the
/// user id handed to `start_passkey_registration`.
pub uninterp spec fn challenge_user_handle(challenge: CreationChallengeResponse) -> Seq<u8>;

/// The user name carried by a registration challenge.
pub uninterp spec fn challenge_user_name(challenge: CreationChallengeResponse) -> Seq<char>;

/// The user display name carried by a registration challenge.
pub uninterp spec fn challenge_user_display_name(challenge: CreationChallengeResponse) -> Seq<char>;

/// The credentials a registration challenge asks the browser not to register
/// again; none where no list was given.
pub uninterp spec fn challenge_excluded_credentials(challenge: CreationChallengeResponse) -> Option<
    Seq<CredentialID>,
>;

/// The challenge bytes a registration challenge sends to the browser.
pub uninterp spec fn creation_challenge(challenge: CreationChallengeResponse) -> Seq<u8>;

/// The challenge bytes a registration state expects the browser to sign.
pub uninterp spec fn registration_challenge(state: PasskeyRegistration) -> Seq<u8>;

/// The challenge bytes an authentication challenge sends to the browser.
pub uninterp spec fn request_challenge(challenge: RequestChallengeResponse) -> Seq<u8>;

/// The challenge bytes an authentication ceremony expects the browser to sign.
pub uninterp spec fn ceremony_challenge(state: PasskeyAuthentication) -> Seq<u8>;

/// The passkeys an authentication ceremony accepts an assertion from.
pub uninterp spec fn ceremony_passkeys(state: PasskeyAuthentication) -> Seq<Passkey>;

/// What `Webauthn::finish_passkey_registration` gives: the passkey where the
/// browser's credential checks out against the registration state.
pub uninterp spec fn passkey_registration(
    webauthn: Webauthn,
    reg: RegisterPublicKeyCredential,
    state: PasskeyRegistration,
) -> Option<Passkey>;

/// Whether `Webauthn::finish_passkey_authentication` accepts the browser's
/// assertion against the authentication state.
pub uninterp spec fn assertion_verified(
    webauthn: Webauthn,
    cred: PublicKeyCredential,
    state: PasskeyAuthentication,
) -> bool;

/// What `serde_json::to_string` gives for a passkey.
pub uninterp spec fn passkey_json(passkey: Passkey) -> Option<Seq<char>>;

/// What `serde_json::from_str::<Passkey>` gives for a text.
pub uninterp spec fn passkey_parse(text: Seq<char>) -> Option<Passkey>;

/// Whether `serde_json::from_str::<Passkey>` accepts a text.
pub open spec fn passkey_json_accepted(text: Seq<char>) -> bool {
    passkey_parse(text) is Some
}

/// Trusted: `Url::parse`. The result is the named `url_parse` of the text.
#[verifier::external_body]
pub(crate) fn parse_url(text: &str) -> (r: Option<Url>)
    ensures
        r == url_parse(text@),
{
    Url::parse(text).ok()
}

/// Trusted: `WebauthnBuilder::new`. Its source accepts the configuration
/// exactly where the origin's domain (`Url::domain`) is the relying-party id
/// or ends in `.` and the id; the builder is then the named `builder_for`.
#[verifier::external_body]
pub(crate) fn webauthn_builder<'a>(rp_id: &'a str, rp_origin: &'a Url) -> (r: Option<
    WebauthnBuilder<'a>,
>)
    ensures
        r is Some == domain_accepts_rp_id(rp_id@, url_domain(*rp_origin)),
        r matches Some(b) ==> b == builder_for(rp_id@, *rp_origin),
{
    WebauthnBuilder::new(rp_id, rp_origin).ok()
}

/// Trusted: `WebauthnBuilder::rp_name`, which records the relying party's
/// display name. The builder is the named `builder_named`.
#[verifier::external_body]
pub(crate) fn webauthn_builder_rp_name<'a>(
    builder: WebauthnBuilder<'a>,
    rp_name: &'a str,
) -> (r: WebauthnBuilder<'a>)
    ensures
        r == builder_named(builder, rp_name@),
{
    builder.rp_name(rp_name)
}

/// Trusted: `WebauthnBuilder::build`. Its source returns `Ok` in every case;
/// the relying party is the named `relying_party_built`.
#[verifier::external_body]
pub(crate) fn webauthn_build<'a>(builder: WebauthnBuilder<'a>) -> (r: Option<Webauthn>)
    ensures
        r == Some(relying_party_built(builder)),
{
    builder.build().ok()
}

/// Trusted: `Webauthn::start_passkey_registration` for the user with the
/// given id, name and display name, excluding the given credentials. Its
/// source fails only where the name or the display name is empty (the id,
/// 16 bytes, never is). The challenge carries the id's bytes as the user
/// handle, the name, the display name and the excluded credentials as given,
/// and the same random challenge bytes as the registration state. Which bytes
/// is not claimed.
#[verifier::external_body]
pub(crate) fn start_passkey_registration(
    webauthn: &Webauthn,
    user_unique_id: u128,
    user_name: &str,
    user_display_name: &str,
    exclude_credentials: Option<Vec<CredentialID>>,
) -> (r: Option<(CreationChallengeResponse, PasskeyRegistration)>)
    ensures
        (r is Some) == (user_name@.len() > 0 && user_display_name@.len() > 0),
        r is Some ==> creation_challenge(r.unwrap().0) == registration_challenge(r.unwrap().1),
        r is Some ==> challenge_user_handle(r.unwrap().0) == uuid_bytes(user_unique_id),
        r is Some ==> challenge_user_name(r.unwrap().0) == user_name@,
        r is Some ==> challenge_user_display_name(r.unwrap().0) == user_display_name@,
        r is Some ==> challenge_excluded_credentials(r.unwrap().0) == match exclude_credentials {
            Some(v) => Some(v@),
            None => None::<Seq<CredentialID>>,
        },
{
    webauthn.start_passkey_registration(
        Uuid::from_u128(user_unique_id),
        user_name,
        user_display_name,
        exclude_credentials,
    ).ok()
}

/// Trusted: `Webauthn::finish_passkey_registration`, which checks the
/// browser's attestation against the stored registration state with no
/// attestation CA list, hence no clock or randomness. The result is the
/// named `passkey_registration`.
#[verifier::external_body]
pub(crate) fn finish_passkey_registration(
    webauthn: &Webauthn,
    reg: &RegisterPublicKeyCredential,
    state: &PasskeyRegistration,
) -> (r: Option<Passkey>)
    ensures
        r == passkey_registration(*webauthn, *reg, *state),
{
    webauthn.finish_passkey_registration(reg, state).ok()
}

/// Trusted: `Webauthn::start_passkey_authentication` over the user's
/// passkeys. It passes a verification policy, so building the challenge
/// cannot fail and the call always succeeds. The ceremony state holds the
/// credentials of exactly the passkeys given, in order, and the same random
/// challenge bytes as the challenge handed out. Which bytes is not claimed.
#[verifier::external_body]
pub(crate) fn start_passkey_authentication(
    webauthn: &Webauthn,
    creds: &[Passkey],
) -> (r: Option<(RequestChallengeResponse, PasskeyAuthentication)>)
    ensures
        r is Some,
        r is Some ==> ceremony_passkeys(r.unwrap().1) == creds@,
        r is Some ==> request_challenge(r.unwrap().0) == ceremony_challenge(r.unwrap().1),
{
    webauthn.start_passkey_authentication(creds).ok()
}

/// Trusted: `Webauthn::finish_passkey_authentication`, which checks the
/// browser's assertion against the stored authentication state; `true` where
/// it returns `Ok`, which is the named `assertion_verified`.
#[verifier::external_body]
pub(crate) fn finish_passkey_authentication(
    webauthn: &Webauthn,
    cred: &PublicKeyCredential,
    state: &PasskeyAuthentication,
) -> (r: bool)
    ensures
        r == assertion_verified(*webauthn, *cred, *state),
{
    webauthn.finish_passkey_authentication(cred, state).is_ok()
}

/// Trusted: `serde_json::to_string` of a passkey. The result is the named
/// `passkey_json`.
#[verifier::external_body]
pub(crate) fn passkey_to_json(passkey: &Passkey) -> (r: Option<String>)
    ensures
        r.deep_view() == passkey_json(*passkey),
{
    serde_json::to_string(passkey).ok()
}

/// Trusted: `serde_json::from_str::<Passkey>`. The result is the named
/// `passkey_parse` of the text.
#[verifier::external_body]
pub(crate) fn passkey_from_json(text: &str) -> (r: Option<Passkey>)
    ensures
        r == passkey_parse(text@),
{
    serde_json::from_str::<Passkey>(text).ok()
}

} // verus!
