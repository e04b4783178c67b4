//! A typed client library for the Gotify push-notification server's REST API.
//!
//! The heart of the crate is the request-dispatch layer: from a verb string, a
//! relative path, an optional parameter map and a credential-selection hint it
//! builds a [`RequestPlan`] — the complete, checked description of one HTTP
//! request (resolved verb, absolute URL, authentication token and body
//! encoding).  Every domain operation (applications, messages, clients, users,
//! plugins, health, version) is a thin call into that shared builder, so both
//! a blocking and a non-blocking transport can execute the same plans.

mod error;
mod holder;
mod laws;
mod ops;
mod params;
mod plan;
mod response_types;
mod text;
mod verb;

pub use error::GotifyError;
pub use holder::Gotify;
pub use holder::GotifyView;
pub use laws::body_view_eq;
pub use laws::lemma_create_message_app_credential;
pub use laws::lemma_message_scope_only_changes_path;
pub use laws::lemma_no_credential_no_request;
pub use laws::lemma_ops_ignore_client_token;
pub use laws::lemma_trailing_slash_stripped;
pub use params::ParamMap;
pub use params::ParamsView;
pub use ops::bool_str;
pub use ops::message_path;
pub use ops::op_result;
pub use ops::opt_dec;
pub use plan::BodyPlan;
pub use plan::RequestPlan;
pub use plan::body_matches;
pub use plan::dispatch_spec;
pub use plan::plan_matches;
pub use verb::Verb;
pub use verb::lemma_verb_delete;
pub use verb::lemma_verb_get;
pub use verb::lemma_verb_post;
pub use verb::lemma_verb_put;
pub use verb::parse_verb;
pub use verb::verb_of;
pub use text::dec_int;
pub use text::dec_nat;
pub use text::i32_dec;
pub use text::str_eq;
pub use text::strip_slashes;
pub use text::strip_trailing_slashes;
pub use response_types::Application;
pub use response_types::Client;
pub use response_types::Error;
pub use response_types::Health;
pub use response_types::Message;
pub use response_types::PagedMessages;
pub use response_types::Paging;
pub use response_types::PluginConf;
pub use response_types::User;
pub use response_types::UserPass;
pub use response_types::UserWithPass;
pub use response_types::VersionInfo;
