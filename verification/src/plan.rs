//! The request dispatcher's construction step.  From a verb string, a
//! relative path, optional parameters, an optional file marker and a
//! credential-selection hint it produces a [`RequestPlan`]: everything a
//! transport needs to perform exactly one HTTP round-trip.

use vstd::prelude::*;

use crate::error::GotifyError;
use crate::holder::Gotify;
use crate::holder::GotifyView;
use crate::params::ParamMap;
use crate::params::ParamsView;
use crate::verb::Verb;
use crate::verb::parse_verb;
use crate::verb::verb_of;

verus! {

/// How the request's body is encoded.
pub enum BodyPlan {
    /// No body and no query parameters.
    Empty,
    /// The parameters, URL-encoded into the query string (GET requests).
    Query(ParamMap),
    /// The parameters, serialized as a JSON object body (non-GET requests).
    Json(ParamMap),
    /// A raw file payload supplied by the transport; parameters are ignored.
    FileUpload,
}

/// One fully-resolved HTTP request: verb, absolute URL, the credential to
/// attach under the `X-Gotify-Key` header, and the body encoding.
pub struct RequestPlan {
    pub verb: Verb,
    pub url: String,
    pub token: String,
    pub body: BodyPlan,
}

/// How a plan's body must relate to the dispatch arguments: a file payload
/// wins over parameters; parameters go to the query string for GET and to a
/// JSON body otherwise; with neither, the body is empty.
pub open spec fn body_matches(b: BodyPlan, v: Verb, data: Option<ParamsView>, has_file: bool) -> bool {
    if has_file {
        b is FileUpload
    } else {
        match data {
            None => b is Empty,
            Some(d) => if v == Verb::Get {
                b matches BodyPlan::Query(p) && p@ == d
            } else {
                b matches BodyPlan::Json(p) && p@ == d
            },
        }
    }
}

/// The plan `p` is exactly the request that holder `g` must send for these
/// dispatch arguments, `tok` being the credential the hint selected.
pub open spec fn plan_matches(
    g: GotifyView,
    p: RequestPlan,
    v: Verb,
    path: Seq<char>,
    data: Option<ParamsView>,
    has_file: bool,
    tok: Seq<char>,
) -> bool {
    &&& p.verb == v
    &&& p.url@ == g.base_url + path
    &&& p.token@ == tok
    &&& body_matches(p.body, v, data, has_file)
}

/// The full contract of [`Gotify::do_request`]: an unrecognized verb string
/// fails first, an unset selected credential fails next, and otherwise the
/// one possible plan is returned.
pub open spec fn dispatch_spec(
    g: GotifyView,
    method: Seq<char>,
    path: Seq<char>,
    data: Option<ParamsView>,
    has_file: bool,
    auth_mode: Option<Seq<char>>,
    r: Result<RequestPlan, GotifyError>,
) -> bool {
    match verb_of(method) {
        None => r == Err::<RequestPlan, GotifyError>(GotifyError::InvalidVerb),
        Some(v) => match g.token_for(auth_mode) {
            None => r == Err::<RequestPlan, GotifyError>(GotifyError::MissingCredential),
            Some(tok) => r matches Ok(p) && plan_matches(g, p, v, path, data, has_file, tok),
        },
    }
}

impl Gotify {
    /// Builds the one request these arguments describe.  The URL is the
    /// stored base URL followed by `endpoint_url`, which the operations
    /// always begin with `'/'`; the base URL's own trailing slashes were
    /// stripped at construction, so the join introduces no double slash.
    pub fn do_request(
        &self,
        method: &str,
        endpoint_url: &str,
        data: Option<ParamMap>,
        has_file: bool,
        auth_mode: Option<&str>,
    ) -> (r: Result<RequestPlan, GotifyError>)
        ensures
            dispatch_spec(
                self@,
                method@,
                endpoint_url@,
                data.deep_view(),
                has_file,
                auth_mode.deep_view(),
                r,
            ),
    {
        let verb = match parse_verb(method) {
            Ok(v) => v,
            Err(e) => {
                return Err(e);
            },
        };
        let token = match self.get_token(auth_mode) {
            Ok(t) => t,
            Err(e) => {
                return Err(e);
            },
        };
        let mut url = self.base_url_owned();
        url.append(endpoint_url);
        let body = if has_file {
            BodyPlan::FileUpload
        } else {
            match data {
                Some(d) => if verb == Verb::Get {
                    BodyPlan::Query(d)
                } else {
                    BodyPlan::Json(d)
                },
                None => BodyPlan::Empty,
            }
        };
        Ok(RequestPlan { verb, url, token, body })
    }
}

} // verus!
