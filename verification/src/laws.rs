//! Properties that relate several parts of the dispatch layer, stated and
//! proved once, publicly.

use vstd::prelude::*;

use crate::error::GotifyError;
use crate::holder::GotifyView;
use crate::ops::message_path;
use crate::ops::op_result;
use crate::params::ParamsView;
use crate::plan::BodyPlan;
use crate::plan::RequestPlan;
use crate::text::dec_int;
use crate::text::lemma_strip_slashes_no_tail;
use crate::text::strip_slashes;
use crate::verb::Verb;

verus! {

/// Two body plans that encode the same parameters the same way.
pub open spec fn body_view_eq(b1: BodyPlan, b2: BodyPlan) -> bool {
    match (b1, b2) {
        (BodyPlan::Empty, BodyPlan::Empty) => true,
        (BodyPlan::Query(p1), BodyPlan::Query(p2)) => p1@ == p2@,
        (BodyPlan::Json(p1), BodyPlan::Json(p2)) => p1@ == p2@,
        (BodyPlan::FileUpload, BodyPlan::FileUpload) => true,
        _ => false,
    }
}

/// A base URL given with a trailing slash stores the same base URL as one
/// given without, and stripping again changes nothing: holders built from
/// `u` and from `u + "/"` build the same request URLs.
pub proof fn lemma_trailing_slash_stripped(s: Seq<char>)
    ensures
        strip_slashes(s.push('/')) == strip_slashes(s),
        strip_slashes(strip_slashes(s)) == strip_slashes(s),
{
    assert(s.push('/').last() == '/');
    assert(s.push('/').drop_last() =~= s);
    lemma_strip_slashes_no_tail(s);
}

/// Presence of an application id scopes the message operations to the
/// `/application/{id}/message` path; its absence routes them to `/message`.
/// Nothing else about the request changes: same success, same verb, same
/// credential, same body.
pub proof fn lemma_message_scope_only_changes_path(
    g: GotifyView,
    id: i32,
    v: Verb,
    data: Option<ParamsView>,
    r_scoped: Result<RequestPlan, GotifyError>,
    r_unscoped: Result<RequestPlan, GotifyError>,
)
    requires
        op_result(g, v, message_path(Some(id)), data, false, r_scoped),
        op_result(g, v, message_path(None), data, false, r_unscoped),
    ensures
        r_scoped is Ok <==> r_unscoped is Ok,
        r_scoped is Err ==> r_scoped == r_unscoped,
        r_scoped is Ok ==> {
            &&& r_scoped->Ok_0.verb == r_unscoped->Ok_0.verb
            &&& r_scoped->Ok_0.token@ == r_unscoped->Ok_0.token@
            &&& body_view_eq(r_scoped->Ok_0.body, r_unscoped->Ok_0.body)
            &&& r_scoped->Ok_0.url@ == g.base_url + "/application/"@ + dec_int(id as int)
                + "/message"@
            &&& r_unscoped->Ok_0.url@ == g.base_url + "/message"@
        },
{
    if g.app_token is Some {
        assert(g.base_url + ("/application/"@ + dec_int(id as int) + "/message"@) =~= g.base_url
            + "/application/"@ + dec_int(id as int) + "/message"@);
    }
}

/// An operation's outcome does not depend on the client credential: every
/// operation — message creation in particular, whatever credential a facade
/// defaults to — authenticates with the application token alone.
pub proof fn lemma_ops_ignore_client_token(
    g1: GotifyView,
    g2: GotifyView,
    v: Verb,
    path: Seq<char>,
    data: Option<ParamsView>,
    has_file: bool,
    r1: Result<RequestPlan, GotifyError>,
    r2: Result<RequestPlan, GotifyError>,
)
    requires
        g1.base_url == g2.base_url,
        g1.app_token == g2.app_token,
        op_result(g1, v, path, data, has_file, r1),
        op_result(g2, v, path, data, has_file, r2),
    ensures
        r1 is Ok <==> r2 is Ok,
        r1 is Err ==> r1 == r2,
        r1 is Ok ==> {
            &&& r1->Ok_0.verb == r2->Ok_0.verb
            &&& r1->Ok_0.url@ == r2->Ok_0.url@
            &&& r1->Ok_0.token@ == r2->Ok_0.token@
            &&& body_view_eq(r1->Ok_0.body, r2->Ok_0.body)
        },
{
}

/// An operation whose required credential is unset fails; no request plan —
/// with an empty or malformed credential header — is ever produced.
pub proof fn lemma_no_credential_no_request(
    g: GotifyView,
    v: Verb,
    path: Seq<char>,
    data: Option<ParamsView>,
    has_file: bool,
    r: Result<RequestPlan, GotifyError>,
)
    requires
        op_result(g, v, path, data, has_file, r),
        g.app_token is None,
    ensures
        r == Err::<RequestPlan, GotifyError>(GotifyError::MissingCredential),
{
}

/// The credential a message-creation plan carries is the application token,
/// never the client token.
pub proof fn lemma_create_message_app_credential(
    g: GotifyView,
    data: Option<ParamsView>,
    r: Result<RequestPlan, GotifyError>,
)
    requires
        op_result(g, Verb::Post, "/message"@, data, false, r),
    ensures
        r matches Ok(p) ==> Some(p.token@) == g.app_token,
        g.app_token is None ==> r == Err::<RequestPlan, GotifyError>(
            GotifyError::MissingCredential,
        ),
{
}

} // verus!
