//! The domain operations, one per server endpoint.  Each assembles a
//! parameter map from its typed arguments, picks the endpoint's path
//! template, and hands both to the shared dispatcher.  Both the blocking and
//! the non-blocking transport execute the plans these return, so the request
//! construction is written — and verified — once.
//!
//! Every operation authenticates with the application credential: the
//! operations pass no auth-mode hint (which defaults to the application
//! token), except message creation, which forces the hint "app" explicitly.

use vstd::prelude::*;

use crate::error::GotifyError;
use crate::holder::Gotify;
use crate::holder::GotifyView;
use crate::params::ParamMap;
use crate::params::ParamsView;
use crate::plan::RequestPlan;
use crate::plan::plan_matches;
use crate::text::dec_int;
use crate::text::i32_dec;
use crate::verb::Verb;
use crate::verb::lemma_verb_delete;
use crate::verb::lemma_verb_get;
use crate::verb::lemma_verb_post;
use crate::verb::lemma_verb_put;

verus! {

/// The contract every operation meets: with the application credential
/// unset the operation fails without building a request; with it set, the
/// returned plan is exactly the described request, authenticated with the
/// application token.
pub open spec fn op_result(
    g: GotifyView,
    v: Verb,
    path: Seq<char>,
    data: Option<ParamsView>,
    has_file: bool,
    r: Result<RequestPlan, GotifyError>,
) -> bool {
    match g.app_token {
        None => r == Err::<RequestPlan, GotifyError>(GotifyError::MissingCredential),
        Some(tok) => r matches Ok(p) && plan_matches(g, p, v, path, data, has_file, tok),
    }
}

/// The decimal rendering of an optional number; absent stays absent.
pub open spec fn opt_dec(o: Option<i32>) -> Option<Seq<char>> {
    match o {
        Some(i) => Some(dec_int(i as int)),
        None => None,
    }
}

/// The wire form of a flag: "true" or "false".
pub open spec fn bool_str(b: bool) -> Seq<char> {
    if b {
        "true"@
    } else {
        "false"@
    }
}

/// The path the message operations use: scoped to one application when an
/// application id is given, unscoped otherwise.
pub open spec fn message_path(app_id: Option<i32>) -> Seq<char> {
    match app_id {
        Some(id) => "/application/"@ + dec_int(id as int) + "/message"@,
        None => "/message"@,
    }
}

/// An optional number rendered in decimal, for a parameter value.
fn opt_dec_string(o: Option<i32>) -> (r: Option<String>)
    ensures
        r.deep_view() == opt_dec(o),
{
    match o {
        Some(i) => Some(i32_dec(i)),
        None => None,
    }
}

/// The wire form of an optional admin flag, absent meaning false.
fn admin_flag(admin: Option<bool>) -> (r: String)
    ensures
        r@ == bool_str(admin == Some(true)),
{
    match admin {
        Some(true) => String::from_str("true"),
        _ => String::from_str("false"),
    }
}

/// A path template with one interpolated id.
fn id_path(prefix: &str, id: i32) -> (p: String)
    ensures
        p@ == prefix@ + dec_int(id as int),
{
    let mut p = String::from_str(prefix);
    let digits = i32_dec(id);
    p.append(digits.as_str());
    p
}

/// A path template with one interpolated id and a trailing segment.
fn id_path_suffixed(prefix: &str, id: i32, suffix: &str) -> (p: String)
    ensures
        p@ == prefix@ + dec_int(id as int) + suffix@,
{
    let mut p = String::from_str(prefix);
    let digits = i32_dec(id);
    p.append(digits.as_str());
    p.append(suffix);
    p
}

impl Gotify {
    /// A parameterless GET of `path`.
    fn get_plain(&self, path: &str) -> (r: Result<RequestPlan, GotifyError>)
        ensures
            op_result(self@, Verb::Get, path@, None::<ParamsView>, false, r),
    {
        proof {
            lemma_verb_get();
        }
        self.do_request("get", path, None, false, None)
    }

    /// A parameterless POST of `path`.
    fn post_plain(&self, path: &str) -> (r: Result<RequestPlan, GotifyError>)
        ensures
            op_result(self@, Verb::Post, path@, None::<ParamsView>, false, r),
    {
        proof {
            lemma_verb_post();
        }
        self.do_request("post", path, None, false, None)
    }

    /// A parameterless DELETE of `path`.
    fn delete_plain(&self, path: &str) -> (r: Result<RequestPlan, GotifyError>)
        ensures
            op_result(self@, Verb::Delete, path@, None::<ParamsView>, false, r),
    {
        proof {
            lemma_verb_delete();
        }
        self.do_request("delete", path, None, false, None)
    }

    /// Lists all applications.
    pub fn applications(&self) -> (r: Result<RequestPlan, GotifyError>)
        ensures
            r is Ok <==> self@.app_token is Some,
            op_result(self@, Verb::Get, "/applications"@, None::<ParamsView>, false, r),
    {
        self.get_plain("/applications")
    }

    /// Creates an application with the given name and description.
    pub fn create_application(&self, name: String, description: String) -> (r: Result<
        RequestPlan,
        GotifyError,
    >)
        ensures
            r is Ok <==> self@.app_token is Some,
            op_result(
                self@,
                Verb::Post,
                "/application"@,
                Some(seq![("name"@, Some(name@)), ("description"@, Some(description@))]),
                false,
                r,
            ),
    {
        let ghost name_v = name@;
        let ghost desc_v = description@;
        let mut data = ParamMap::new();
        data.insert("name", Some(name));
        data.insert("description", Some(description));
        proof {
            assert(data@ =~= seq![("name"@, Some(name_v)), ("description"@, Some(desc_v))]);
            lemma_verb_post();
        }
        self.do_request("post", "/application", Some(data), false, None)
    }

    /// Updates an application's name and (optionally) description.
    pub fn update_application(&self, id: i32, name: String, description: Option<String>) -> (r:
        Result<RequestPlan, GotifyError>)
        ensures
            r is Ok <==> self@.app_token is Some,
            op_result(
                self@,
                Verb::Put,
                "/application/"@ + dec_int(id as int),
                Some(seq![("name"@, Some(name@)), ("description"@, description.deep_view())]),
                false,
                r,
            ),
    {
        let ghost name_v = name@;
        let ghost desc_v = description.deep_view();
        let mut data = ParamMap::new();
        data.insert("name", Some(name));
        data.insert("description", description);
        let path = id_path("/application/", id);
        proof {
            assert(data@ =~= seq![("name"@, Some(name_v)), ("description"@, desc_v)]);
            lemma_verb_put();
        }
        self.do_request("put", path.as_str(), Some(data), false, None)
    }

    /// Deletes an application.
    pub fn delete_application(&self, id: i32) -> (r: Result<RequestPlan, GotifyError>)
        ensures
            r is Ok <==> self@.app_token is Some,
            op_result(
                self@,
                Verb::Delete,
                "/application/"@ + dec_int(id as int),
                None::<ParamsView>,
                false,
                r,
            ),
    {
        let path = id_path("/application/", id);
        self.delete_plain(path.as_str())
    }

    /// Uploads an application's image.  The transport attaches the raw file
    /// payload the plan calls for.
    pub fn upload_application_image(&self, id: i32) -> (r: Result<RequestPlan, GotifyError>)
        ensures
            r is Ok <==> self@.app_token is Some,
            op_result(
                self@,
                Verb::Post,
                "/application/"@ + dec_int(id as int) + "/image"@,
                None::<ParamsView>,
                true,
                r,
            ),
    {
        let path = id_path_suffixed("/application/", id, "/image");
        proof {
            lemma_verb_post();
        }
        self.do_request("post", path.as_str(), None, true, None)
    }

    /// Lists messages, optionally scoped to one application and paged with
    /// `limit` and `since`.
    pub fn get_messages(&self, app_id: Option<i32>, limit: Option<i32>, since: Option<i32>) -> (r:
        Result<RequestPlan, GotifyError>)
        ensures
            r is Ok <==> self@.app_token is Some,
            op_result(
                self@,
                Verb::Get,
                message_path(app_id),
                Some(seq![("limit"@, opt_dec(limit)), ("since"@, opt_dec(since))]),
                false,
                r,
            ),
    {
        let mut data = ParamMap::new();
        data.insert("limit", opt_dec_string(limit));
        data.insert("since", opt_dec_string(since));
        proof {
            assert(data@ =~= seq![("limit"@, opt_dec(limit)), ("since"@, opt_dec(since))]);
            lemma_verb_get();
        }
        match app_id {
            Some(id) => {
                let path = id_path_suffixed("/application/", id, "/message");
                self.do_request("get", path.as_str(), Some(data), false, None)
            },
            None => self.do_request("get", "/message", Some(data), false, None),
        }
    }

    /// Creates (sends) a message.  This is the one operation that forces the
    /// application credential by an explicit auth-mode hint; it never sends
    /// the client credential.
    pub fn create_message(&self, message: String, priority: Option<i32>, title: Option<String>) -> (
        r: Result<RequestPlan, GotifyError>)
        ensures
            r is Ok <==> self@.app_token is Some,
            op_result(
                self@,
                Verb::Post,
                "/message"@,
                Some(
                    seq![
                        ("message"@, Some(message@)),
                        ("priority"@, opt_dec(priority)),
                        ("title"@, title.deep_view()),
                    ],
                ),
                false,
                r,
            ),
    {
        let ghost message_v = message@;
        let ghost title_v = title.deep_view();
        let mut data = ParamMap::new();
        data.insert("message", Some(message));
        data.insert("priority", opt_dec_string(priority));
        data.insert("title", title);
        proof {
            assert(data@ =~= seq![
                ("message"@, Some(message_v)),
                ("priority"@, opt_dec(priority)),
                ("title"@, title_v),
            ]);
            lemma_verb_post();
        }
        self.do_request("post", "/message", Some(data), false, Some("app"))
    }

    /// Deletes all messages, optionally only those of one application.
    pub fn delete_messages(&self, app_id: Option<i32>) -> (r: Result<RequestPlan, GotifyError>)
        ensures
            r is Ok <==> self@.app_token is Some,
            op_result(self@, Verb::Delete, message_path(app_id), None::<ParamsView>, false, r),
    {
        match app_id {
            Some(id) => {
                let path = id_path_suffixed("/application/", id, "/message");
                self.delete_plain(path.as_str())
            },
            None => self.delete_plain("/message"),
        }
    }

    /// Deletes one message.
    pub fn delete_message(&self, msg_id: i32) -> (r: Result<RequestPlan, GotifyError>)
        ensures
            r is Ok <==> self@.app_token is Some,
            op_result(
                self@,
                Verb::Delete,
                "/message/"@ + dec_int(msg_id as int),
                None::<ParamsView>,
                false,
                r,
            ),
    {
        let path = id_path("/message/", msg_id);
        self.delete_plain(path.as_str())
    }

    /// Lists all clients.
    pub fn get_clients(&self) -> (r: Result<RequestPlan, GotifyError>)
        ensures
            r is Ok <==> self@.app_token is Some,
            op_result(self@, Verb::Get, "/client"@, None::<ParamsView>, false, r),
    {
        self.get_plain("/client")
    }

    /// Creates a client with the given name.
    pub fn create_client(&self, name: String) -> (r: Result<RequestPlan, GotifyError>)
        ensures
            r is Ok <==> self@.app_token is Some,
            op_result(
                self@,
                Verb::Post,
                "/client"@,
                Some(seq![("name"@, Some(name@))]),
                false,
                r,
            ),
    {
        let ghost name_v = name@;
        let mut data = ParamMap::new();
        data.insert("name", Some(name));
        proof {
            assert(data@ =~= seq![("name"@, Some(name_v))]);
            lemma_verb_post();
        }
        self.do_request("post", "/client", Some(data), false, None)
    }

    /// Renames a client.
    pub fn update_client(&self, id: i32, name: String) -> (r: Result<RequestPlan, GotifyError>)
        ensures
            r is Ok <==> self@.app_token is Some,
            op_result(
                self@,
                Verb::Put,
                "/client/"@ + dec_int(id as int),
                Some(seq![("name"@, Some(name@))]),
                false,
                r,
            ),
    {
        let ghost name_v = name@;
        let mut data = ParamMap::new();
        data.insert("name", Some(name));
        let path = id_path("/client/", id);
        proof {
            assert(data@ =~= seq![("name"@, Some(name_v))]);
            lemma_verb_put();
        }
        self.do_request("put", path.as_str(), Some(data), false, None)
    }

    /// Deletes a client.
    pub fn delete_client(&self, id: i32) -> (r: Result<RequestPlan, GotifyError>)
        ensures
            r is Ok <==> self@.app_token is Some,
            op_result(
                self@,
                Verb::Delete,
                "/client/"@ + dec_int(id as int),
                None::<ParamsView>,
                false,
                r,
            ),
    {
        let path = id_path("/client/", id);
        self.delete_plain(path.as_str())
    }

    /// Fetches the authenticated user.
    pub fn get_current_user(&self) -> (r: Result<RequestPlan, GotifyError>)
        ensures
            r is Ok <==> self@.app_token is Some,
            op_result(self@, Verb::Get, "/current/user"@, None::<ParamsView>, false, r),
    {
        self.get_plain("/current/user")
    }

    /// Changes the authenticated user's password.
    pub fn set_password(&self, passwd: String) -> (r: Result<RequestPlan, GotifyError>)
        ensures
            r is Ok <==> self@.app_token is Some,
            op_result(
                self@,
                Verb::Get,
                "/current/user/password"@,
                Some(seq![("pass"@, Some(passwd@))]),
                false,
                r,
            ),
    {
        let ghost passwd_v = passwd@;
        let mut data = ParamMap::new();
        data.insert("pass", Some(passwd));
        proof {
            assert(data@ =~= seq![("pass"@, Some(passwd_v))]);
            lemma_verb_get();
        }
        self.do_request("get", "/current/user/password", Some(data), false, None)
    }

    /// Lists all users.
    pub fn get_users(&self) -> (r: Result<RequestPlan, GotifyError>)
        ensures
            r is Ok <==> self@.app_token is Some,
            op_result(self@, Verb::Get, "/user"@, None::<ParamsView>, false, r),
    {
        self.get_plain("/user")
    }

    /// Creates a user; an absent admin flag means a regular user.
    pub fn create_user(&self, name: String, passwd: String, admin: Option<bool>) -> (r: Result<
        RequestPlan,
        GotifyError,
    >)
        ensures
            r is Ok <==> self@.app_token is Some,
            op_result(
                self@,
                Verb::Post,
                "/user"@,
                Some(
                    seq![
                        ("pass"@, Some(passwd@)),
                        ("name"@, Some(name@)),
                        ("admin"@, Some(bool_str(admin == Some(true)))),
                    ],
                ),
                false,
                r,
            ),
    {
        let ghost name_v = name@;
        let ghost passwd_v = passwd@;
        let mut data = ParamMap::new();
        data.insert("pass", Some(passwd));
        data.insert("name", Some(name));
        data.insert("admin", Some(admin_flag(admin)));
        proof {
            assert(data@ =~= seq![
                ("pass"@, Some(passwd_v)),
                ("name"@, Some(name_v)),
                ("admin"@, Some(bool_str(admin == Some(true)))),
            ]);
            lemma_verb_post();
        }
        self.do_request("post", "/user", Some(data), false, None)
    }

    /// Fetches one user.
    pub fn get_user(&self, id: i32) -> (r: Result<RequestPlan, GotifyError>)
        ensures
            r is Ok <==> self@.app_token is Some,
            op_result(
                self@,
                Verb::Get,
                "/user/"@ + dec_int(id as int),
                None::<ParamsView>,
                false,
                r,
            ),
    {
        let path = id_path("/user/", id);
        self.get_plain(path.as_str())
    }

    /// Updates a user's name, password and admin flag; absent fields are sent
    /// as absent values, and an absent admin flag means a regular user.
    pub fn update_user(
        &self,
        id: i32,
        name: Option<String>,
        passwd: Option<String>,
        admin: Option<bool>,
    ) -> (r: Result<RequestPlan, GotifyError>)
        ensures
            r is Ok <==> self@.app_token is Some,
            op_result(
                self@,
                Verb::Put,
                "/user/"@ + dec_int(id as int),
                Some(
                    seq![
                        ("pass"@, passwd.deep_view()),
                        ("name"@, name.deep_view()),
                        ("admin"@, Some(bool_str(admin == Some(true)))),
                    ],
                ),
                false,
                r,
            ),
    {
        let ghost name_v = name.deep_view();
        let ghost passwd_v = passwd.deep_view();
        let mut data = ParamMap::new();
        data.insert("pass", passwd);
        data.insert("name", name);
        data.insert("admin", Some(admin_flag(admin)));
        let path = id_path("/user/", id);
        proof {
            assert(data@ =~= seq![
                ("pass"@, passwd_v),
                ("name"@, name_v),
                ("admin"@, Some(bool_str(admin == Some(true)))),
            ]);
            lemma_verb_put();
        }
        self.do_request("put", path.as_str(), Some(data), false, None)
    }

    /// Deletes a user.
    pub fn delete_user(&self, id: i32) -> (r: Result<RequestPlan, GotifyError>)
        ensures
            r is Ok <==> self@.app_token is Some,
            op_result(
                self@,
                Verb::Delete,
                "/user/"@ + dec_int(id as int),
                None::<ParamsView>,
                false,
                r,
            ),
    {
        let path = id_path("/user/", id);
        self.delete_plain(path.as_str())
    }

    /// Checks the server's health.
    pub fn get_health(&self) -> (r: Result<RequestPlan, GotifyError>)
        ensures
            r is Ok <==> self@.app_token is Some,
            op_result(self@, Verb::Get, "/health"@, None::<ParamsView>, false, r),
    {
        self.get_plain("/health")
    }

    /// Lists all plugins.
    pub fn get_plugins(&self) -> (r: Result<RequestPlan, GotifyError>)
        ensures
            r is Ok <==> self@.app_token is Some,
            op_result(self@, Verb::Get, "/plugins"@, None::<ParamsView>, false, r),
    {
        self.get_plain("/plugins")
    }

    /// Fetches one plugin's configuration.
    pub fn get_plugin_config(&self, id: i32) -> (r: Result<RequestPlan, GotifyError>)
        ensures
            r is Ok <==> self@.app_token is Some,
            op_result(
                self@,
                Verb::Get,
                "/plugins/"@ + dec_int(id as int) + "/config"@,
                None::<ParamsView>,
                false,
                r,
            ),
    {
        let path = id_path_suffixed("/plugins/", id, "/config");
        self.get_plain(path.as_str())
    }

    /// Disables a plugin.
    pub fn disable_plugin(&self, id: i32) -> (r: Result<RequestPlan, GotifyError>)
        ensures
            r is Ok <==> self@.app_token is Some,
            op_result(
                self@,
                Verb::Post,
                "/plugins/"@ + dec_int(id as int) + "/disable"@,
                None::<ParamsView>,
                false,
                r,
            ),
    {
        let path = id_path_suffixed("/plugins/", id, "/disable");
        self.post_plain(path.as_str())
    }

    /// Fetches one plugin's display text.
    pub fn get_plugin_display(&self, id: i32) -> (r: Result<RequestPlan, GotifyError>)
        ensures
            r is Ok <==> self@.app_token is Some,
            op_result(
                self@,
                Verb::Get,
                "/plugins/"@ + dec_int(id as int) + "/display"@,
                None::<ParamsView>,
                false,
                r,
            ),
    {
        let path = id_path_suffixed("/plugins/", id, "/display");
        self.get_plain(path.as_str())
    }

    /// Enables a plugin.
    pub fn enable_plugin(&self, id: i32) -> (r: Result<RequestPlan, GotifyError>)
        ensures
            r is Ok <==> self@.app_token is Some,
            op_result(
                self@,
                Verb::Post,
                "/plugins/"@ + dec_int(id as int) + "/enable"@,
                None::<ParamsView>,
                false,
                r,
            ),
    {
        let path = id_path_suffixed("/plugins/", id, "/enable");
        self.post_plain(path.as_str())
    }

    /// Fetches the server's version information.
    pub fn get_version(&self) -> (r: Result<RequestPlan, GotifyError>)
        ensures
            r is Ok <==> self@.app_token is Some,
            op_result(self@, Verb::Get, "/version"@, None::<ParamsView>, false, r),
    {
        self.get_plain("/version")
    }
}

} // verus!
