use gotify_rs::Gotify;
use gotify_rs::GotifyError;

#[test]
fn trailing_slash_stripped_at_construction() {
    let g = Gotify::new("http://example.com/", Some("a"), Some("c"));
    assert_eq!(g.base_url(), "http://example.com");
    let g2 = Gotify::new("http://example.com", Some("a"), Some("c"));
    assert_eq!(g2.base_url(), "http://example.com");
    let g3 = Gotify::new("http://example.com///", Some("a"), Some("c"));
    assert_eq!(g3.base_url(), "http://example.com");
}

#[test]
fn inner_slashes_kept() {
    let g = Gotify::new("http://example.com/gotify/", None, None);
    assert_eq!(g.base_url(), "http://example.com/gotify");
}

#[test]
fn slash_only_and_empty_base_urls() {
    let g = Gotify::new("/", None, None);
    assert_eq!(g.base_url(), "");
    let g2 = Gotify::new("", None, None);
    assert_eq!(g2.base_url(), "");
}

#[test]
fn non_ascii_base_urls_are_stripped_too() {
    let g = Gotify::new("http://püsh.example/", None, None);
    assert_eq!(g.base_url(), "http://püsh.example");
}

#[test]
fn trailing_slash_yields_same_request_urls() {
    let with = Gotify::new("http://x/", Some("t"), None);
    let without = Gotify::new("http://x", Some("t"), None);
    let p1 = with.applications().unwrap();
    let p2 = without.applications().unwrap();
    assert_eq!(p1.url, p2.url);
    assert_eq!(p1.url, "http://x/applications");
}

#[test]
fn get_token_defaults_to_app_token() {
    let g = Gotify::new("http://x", Some("app_tok"), Some("client_tok"));
    assert_eq!(g.get_token(None).unwrap(), "app_tok");
}

#[test]
fn get_token_app_mode_selects_app_token() {
    let g = Gotify::new("http://x", Some("app_tok"), Some("client_tok"));
    assert_eq!(g.get_token(Some("app")).unwrap(), "app_tok");
}

#[test]
fn get_token_other_modes_select_client_token() {
    let g = Gotify::new("http://x", Some("app_tok"), Some("client_tok"));
    assert_eq!(g.get_token(Some("client")).unwrap(), "client_tok");
    assert_eq!(g.get_token(Some("anything")).unwrap(), "client_tok");
    assert_eq!(g.get_token(Some("APP")).unwrap(), "client_tok");
}

#[test]
fn get_token_missing_app_token_fails() {
    let g = Gotify::new("http://x", None, Some("client_tok"));
    assert_eq!(g.get_token(None), Err(GotifyError::MissingCredential));
    assert_eq!(g.get_token(Some("app")), Err(GotifyError::MissingCredential));
    assert_eq!(g.get_token(Some("client")).unwrap(), "client_tok");
}

#[test]
fn get_token_missing_client_token_fails() {
    let g = Gotify::new("http://x", Some("app_tok"), None);
    assert_eq!(g.get_token(Some("client")), Err(GotifyError::MissingCredential));
    assert_eq!(g.get_token(None).unwrap(), "app_tok");
}

#[test]
fn config_replaces_all_three_fields() {
    let g = Gotify::new("http://old/", Some("old_app"), Some("old_client"));
    let g = g.config("http://new/", Some("new_app"), None);
    assert_eq!(g.base_url(), "http://new");
    assert_eq!(g.get_token(None).unwrap(), "new_app");
    assert_eq!(g.get_token(Some("client")), Err(GotifyError::MissingCredential));
}

#[test]
fn error_descriptions() {
    assert_eq!(GotifyError::InvalidVerb.describe(), "unrecognized HTTP verb");
    assert_eq!(
        GotifyError::MissingCredential.describe(),
        "the selected credential is not set"
    );
}
