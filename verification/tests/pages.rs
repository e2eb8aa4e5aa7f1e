use moat::entity::{key, registration_link, user};
use moat::setup::{
    needs_initial_link, new_link_human_id, registration_link_url, AUTH_SESSION_NAME,
    LINK_WORD_SEPARATOR, REGISTRATION_SESSION_NAME, SESSION_DURATION_SECS,
};
use moat::templates::{
    AdminSettingsTemplate, IndexTemplate, KeyTemplate, NewKeyTemplate,
    RegistrationLinksTemplate, SignInTemplate,
};
use moat::utils::{pretty_json, render_pretty_json};

fn erin() -> user::Model {
    user::Model {
        id: "00000000-0000-0000-0000-00000000000e".to_string(),
        email: "erin@example.com".to_string(),
        role: "admin".to_string(),
        created_at: String::new(),
        last_authenticated: String::new(),
    }
}

fn erins_key() -> key::Model {
    key::Model {
        id: "00000000-0000-0000-0000-0000000000aa".to_string(),
        user_id: erin().id,
        name: "laptop".to_string(),
        color: "red".to_string(),
        created_at: String::new(),
        last_used: String::new(),
        credential: "{}".to_string(),
    }
}

fn link(human_id: &str) -> registration_link::Model {
    registration_link::Model { id: 1, human_id: human_id.to_string(), key_id: None }
}

#[test]
fn index_page() {
    let t = IndexTemplate::for_user(vec![erins_key()], erin());
    assert_eq!(t.passkeys, vec![erins_key()]);
    assert_eq!(t.user, Some(erin()));
}

#[test]
fn key_page() {
    let t = KeyTemplate::for_user(erins_key(), erin());
    assert_eq!(t.passkey, erins_key());
    assert_eq!(t.user, Some(erin()));
}

#[test]
fn sign_in_page() {
    let t = SignInTemplate::for_visitor(Some("/admin".to_string()));
    assert_eq!(t.user, None);
    assert_eq!(t.redirect, Some("/admin".to_string()));
    assert_eq!(SignInTemplate::for_visitor(None).redirect, None);
}

#[test]
fn new_key_pages() {
    let t = NewKeyTemplate::direct();
    assert!(!t.is_link);
    assert_eq!(t.link_id, "");
    assert_eq!(t.user, None);
    let t = NewKeyTemplate::through_link(Some(link("tame-lions-retire"))).expect("link");
    assert!(t.is_link);
    assert_eq!(t.link_id, "tame-lions-retire");
    assert!(NewKeyTemplate::through_link(None).is_none());
}

#[test]
fn admin_pages() {
    assert_eq!(AdminSettingsTemplate::page().user, None);
    let t = RegistrationLinksTemplate::listing(vec![link("a-b-c")]);
    assert_eq!(t.registration_links, vec![link("a-b-c")]);
    assert_eq!(t.user, None);
}

#[test]
fn initial_link() {
    assert!(needs_initial_link(&Vec::new()));
    assert!(!needs_initial_link(&vec![link("a-b-c")]));
    assert_eq!(
        registration_link_url("moat.example", "tame-lions-retire"),
        "https://moat.example/new-key/tame-lions-retire"
    );
    let id = new_link_human_id();
    assert_eq!(id.split(LINK_WORD_SEPARATOR).count(), 3);
    assert_eq!(id, id.to_lowercase());
}

#[test]
fn session_settings() {
    assert_eq!(SESSION_DURATION_SECS, 259_200);
    assert_eq!(REGISTRATION_SESSION_NAME, "moat_reg");
    assert_eq!(AUTH_SESSION_NAME, "moat_auth");
}

#[test]
fn pretty_prints_json() {
    assert_eq!(
        pretty_json("{\"empty\":{},\n\n\n\n\n\"one\":[1]}"),
        Some("{\n  \"empty\": {},\n  \"one\": [\n    1\n  ]\n}".to_string())
    );
    assert_eq!(pretty_json("{\"a\":1}"), Some("{\n  \"a\": 1\n}".to_string()));
}

#[test]
fn renders_json_as_html() {
    let html = render_pretty_json("{\"a\":1}").expect("rendered");
    assert!(html.starts_with("<pre"));
    assert!(html.contains("background-color:#101827"));
    assert!(html.ends_with("</pre>\n"));
}
