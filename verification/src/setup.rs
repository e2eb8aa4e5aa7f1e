//! How the site is set up: its session stores and the first registration link.
use crate::auth::{https_origin, rp_origin};
use crate::entity::registration_link;
use vstd::prelude::*;

verus! {

/// The name of the store of registrations under way.
pub const REGISTRATION_SESSION_NAME: &'static str = "moat_reg";

/// The name of the store of authentication sessions.
pub const AUTH_SESSION_NAME: &'static str = "moat_auth";

/// How long a session lasts: three days, in seconds.
pub const SESSION_DURATION_SECS: u64 = 3600 * 24 * 3;

/// The separator between the words of a registration link's readable id.
pub const LINK_WORD_SEPARATOR: &'static str = "-";

/// A word of `human_id`'s lists: one or more lower-case ASCII letters.
pub open spec fn is_lower_word(w: Seq<char>) -> bool {
    &&& w.len() > 0
    &&& forall|i: int| 0 <= i < w.len() ==> 'a' <= #[trigger] w[i] <= 'z'
}

/// Three words, each one or more lower-case ASCII letters, joined by `separator`.
pub open spec fn is_three_words(text: Seq<char>, separator: Seq<char>) -> bool {
    exists|a: Seq<char>, b: Seq<char>, c: Seq<char>|
        is_lower_word(a) && is_lower_word(b) && is_lower_word(c) && text == a + separator + b
            + separator + c
}

/// Trusted: `human_id::id`, an adjective, a noun and a verb picked at random
/// from its lists and joined by the separator. Every word of those lists is
/// one or more lower-case ASCII letters, so uncapitalised the result is three
/// such words joined by the separator; which words is random.
#[verifier::external_body]
fn human_id_words(separator: &str, capitalize: bool) -> (r: String)
    ensures
        !capitalize ==> is_three_words(r@, separator@),
{
    human_id::id(separator, capitalize)
}

/// Whether the site needs a first registration link: where there are no
/// links there are no users, and the first one must be able to register.
pub fn needs_initial_link(links: &Vec<registration_link::Model>) -> (b: bool)
    ensures
        b == (links@.len() == 0),
{
    links.len() == 0
}

/// A fresh readable id for a registration link: three random lower-case
/// words joined by [`LINK_WORD_SEPARATOR`].
pub fn new_link_human_id() -> (r: String)
    ensures
        is_three_words(r@, LINK_WORD_SEPARATOR@),
{
    human_id_words(LINK_WORD_SEPARATOR, false)
}

/// The address of the registration link with readable id `human_id`.
pub open spec fn registration_link_text(rp_id: Seq<char>, human_id: Seq<char>) -> Seq<char> {
    https_origin(rp_id) + "/new-key/"@ + human_id
}

/// The address at which the registration link `human_id` is opened.
pub fn registration_link_url(rp_id: &str, human_id: &str) -> (r: String)
    ensures
        r@ == registration_link_text(rp_id@, human_id@),
{
    let mut url = rp_origin(rp_id);
    url.append("/new-key/");
    url.append(human_id);
    url
}

} // verus!
