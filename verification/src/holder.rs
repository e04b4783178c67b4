//! The credential holder: the server's base URL (trailing slashes stripped at
//! construction) and two independent credential strings, an "application"
//! token and a "client" token, either of which may be absent.

use vstd::prelude::*;

use crate::error::GotifyError;
use crate::text::str_eq;
use crate::text::strip_slashes;
use crate::text::strip_trailing_slashes;

verus! {

/// The abstract value of a [`Gotify`] holder.
pub ghost struct GotifyView {
    pub base_url: Seq<char>,
    pub app_token: Option<Seq<char>>,
    pub client_token: Option<Seq<char>>,
}

impl GotifyView {
    /// Whether an auth-mode hint selects the application credential: an
    /// absent hint and the hint "app" do; every other hint selects the
    /// client credential.
    pub open spec fn selects_app(auth_mode: Option<Seq<char>>) -> bool {
        match auth_mode {
            None => true,
            Some(m) => m == "app"@,
        }
    }

    /// The credential an auth-mode hint selects, if it is configured.
    pub open spec fn token_for(self, auth_mode: Option<Seq<char>>) -> Option<Seq<char>> {
        if Self::selects_app(auth_mode) {
            self.app_token
        } else {
            self.client_token
        }
    }
}

/// The credential holder.  Its base URL never ends in `'/'`; it is replaced
/// only as a whole, through [`Gotify::config`].
pub struct Gotify {
    base_url: String,
    app_token: Option<String>,
    client_token: Option<String>,
}

impl View for Gotify {
    type V = GotifyView;

    closed spec fn view(&self) -> GotifyView {
        GotifyView {
            base_url: self.base_url@,
            app_token: self.app_token.deep_view(),
            client_token: self.client_token.deep_view(),
        }
    }
}

impl Gotify {
    /// Constructs a holder, stripping every trailing slash of `base_url` and
    /// storing the two credentials as given.
    pub fn new(base_url: &str, app_token: Option<&str>, client_token: Option<&str>) -> (r: Gotify)
        ensures
            r@.base_url == strip_slashes(base_url@),
            r@.app_token == app_token.deep_view(),
            r@.client_token == client_token.deep_view(),
    {
        Gotify {
            base_url: strip_trailing_slashes(base_url),
            app_token: match app_token {
                Some(t) => Some(String::from_str(t)),
                None => None,
            },
            client_token: match client_token {
                Some(t) => Some(String::from_str(t)),
                None => None,
            },
        }
    }

    /// Replaces all three fields at once, normalizing the base URL exactly as
    /// [`Gotify::new`] does.
    pub fn config(self, base_url: &str, app_token: Option<&str>, client_token: Option<&str>) -> (r:
        Gotify)
        ensures
            r@.base_url == strip_slashes(base_url@),
            r@.app_token == app_token.deep_view(),
            r@.client_token == client_token.deep_view(),
    {
        Gotify::new(base_url, app_token, client_token)
    }

    /// The stored base URL, with its trailing slashes already stripped.
    pub fn base_url(&self) -> (r: &str)
        ensures
            r@ == self@.base_url,
    {
        self.base_url.as_str()
    }

    /// The stored base URL as an owned string, for building request URLs.
    pub fn base_url_owned(&self) -> (r: String)
        ensures
            r@ == self@.base_url,
    {
        self.base_url.clone()
    }

    /// The credential an auth-mode hint selects — see
    /// [`GotifyView::token_for`] — or [`GotifyError::MissingCredential`]
    /// when that credential is not configured.
    pub fn get_token(&self, auth_mode: Option<&str>) -> (r: Result<String, GotifyError>)
        ensures
            self@.token_for(auth_mode.deep_view()) matches Some(t) ==> (r matches Ok(tok)
                && tok@ == t),
            self@.token_for(auth_mode.deep_view()) is None ==> r == Err::<String, GotifyError>(
                GotifyError::MissingCredential,
            ),
    {
        let use_app = match auth_mode {
            None => true,
            Some(m) => str_eq(m, "app"),
        };
        let selected = if use_app {
            &self.app_token
        } else {
            &self.client_token
        };
        match selected {
            Some(t) => Ok(t.clone()),
            None => Err(GotifyError::MissingCredential),
        }
    }
}

} // verus!
