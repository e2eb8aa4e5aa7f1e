//! The pages the site renders, with what each one shows.
use crate::entity::{key, registration_link, user};
use vstd::prelude::*;

verus! {

/// The home page of a signed-in user: the stored passkeys.
pub struct IndexTemplate {
    pub passkeys: Vec<key::Model>,
    pub user: Option<user::Model>,
}

/// The page of one passkey.
pub struct KeyTemplate {
    pub passkey: key::Model,
    pub user: Option<user::Model>,
}

/// The sign-in page, with the page to return to afterwards.
pub struct SignInTemplate {
    pub user: Option<user::Model>,
    pub redirect: Option<String>,
}

/// The page for registering a new passkey, either directly or through a
/// registration link.
pub struct NewKeyTemplate {
    pub is_link: bool,
    pub link_id: String,
    pub user: Option<user::Model>,
}

/// The administration settings page.
pub struct AdminSettingsTemplate {
    pub user: Option<user::Model>,
}

/// The administration page listing registration links.
pub struct RegistrationLinksTemplate {
    pub registration_links: Vec<registration_link::Model>,
    pub user: Option<user::Model>,
}

impl IndexTemplate {
    /// The home page of `user`, listing `passkeys`.
    pub fn for_user(passkeys: Vec<key::Model>, user: user::Model) -> (t: IndexTemplate)
        ensures
            t.passkeys == passkeys,
            t.user == Some(user),
    {
        IndexTemplate { passkeys, user: Some(user) }
    }
}

impl KeyTemplate {
    /// The page of `passkey`, seen by `user`.
    pub fn for_user(passkey: key::Model, user: user::Model) -> (t: KeyTemplate)
        ensures
            t.passkey == passkey,
            t.user == Some(user),
    {
        KeyTemplate { passkey, user: Some(user) }
    }
}

impl SignInTemplate {
    /// The sign-in page for a visitor, returning to `redirect` afterwards.
    pub fn for_visitor(redirect: Option<String>) -> (t: SignInTemplate)
        ensures
            t.user is None,
            t.redirect == redirect,
    {
        SignInTemplate { user: None, redirect }
    }
}

impl NewKeyTemplate {
    /// The page for registering a passkey without a link.
    pub fn direct() -> (t: NewKeyTemplate)
        ensures
            !t.is_link,
            t.link_id@ == Seq::<char>::empty(),
            t.user is None,
    {
        NewKeyTemplate { is_link: false, link_id: String::new(), user: None }
    }

    /// The page for registering through the link found under the requested
    /// id: the link's readable id; none where no link was found.
    pub fn through_link(link: Option<registration_link::Model>) -> (t: Option<NewKeyTemplate>)
        ensures
            t is Some == link is Some,
            t matches Some(t) ==> {
                &&& t.is_link
                &&& t.link_id == link->0.human_id
                &&& t.user is None
            },
    {
        match link {
            Some(link) => Some(NewKeyTemplate { is_link: true, link_id: link.human_id, user: None }),
            None => None,
        }
    }
}

impl AdminSettingsTemplate {
    /// The settings page.
    pub fn page() -> (t: AdminSettingsTemplate)
        ensures
            t.user is None,
    {
        AdminSettingsTemplate { user: None }
    }
}

impl RegistrationLinksTemplate {
    /// The page listing `registration_links`.
    pub fn listing(registration_links: Vec<registration_link::Model>) -> (t:
        RegistrationLinksTemplate)
        ensures
            t.registration_links == registration_links,
            t.user is None,
    {
        RegistrationLinksTemplate { registration_links, user: None }
    }
}

} // verus!
