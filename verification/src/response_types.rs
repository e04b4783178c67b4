//! The passive records the server's JSON responses decode into.  They carry
//! no behavior; the transport that executes a [`crate::RequestPlan`] decodes
//! each response body into one of these and hands it back.  The wire names
//! that differ from the field names are `errorCode`, `errorDescription`,
//! `buildDate` and `modulePath`.

use vstd::prelude::*;

verus! {

/// An application that may send messages.
#[derive(Clone, Debug)]
pub struct Application {
    pub description: String,
    pub id: i32,
    pub image: String,
    pub internal: bool,
    pub name: String,
    pub token: String,
}

/// A client that may read messages.
#[derive(Clone, Debug)]
pub struct Client {
    pub id: i32,
    pub name: String,
    pub token: String,
}

/// An error the server reports.  On the wire, `code` is `errorCode` and
/// `description` is `errorDescription`.
#[derive(Clone, Debug)]
pub struct Error {
    pub error: String,
    pub code: i32,
    pub description: String,
}

/// The server's health report.
#[derive(Clone, Debug)]
pub struct Health {
    pub database: String,
    pub health: String,
}

/// One message.  Each entry of `extras` pairs an extra's name with its raw
/// JSON value text; `appid` names the sending application but is not
/// validated locally.
#[derive(Clone, Debug)]
pub struct Message {
    pub appid: i32,
    pub date: String,
    pub extras: Vec<(String, String)>,
    pub id: i32,
    pub message: String,
    pub priority: i32,
    pub title: String,
}

/// One page of messages.
#[derive(Clone, Debug)]
pub struct PagedMessages {
    pub messages: Vec<Message>,
    pub paging: Paging,
}

/// Paging data accompanying a message listing.
#[derive(Clone, Debug)]
pub struct Paging {
    pub limit: i32,
    pub next: String,
    pub since: i32,
    pub size: i32,
}

/// A plugin's configuration.  On the wire, `modulepath` is `modulePath`.
#[derive(Clone, Debug)]
pub struct PluginConf {
    pub author: String,
    pub capabilities: Vec<String>,
    pub enabled: bool,
    pub id: i32,
    pub license: String,
    pub modulepath: String,
    pub name: String,
    pub token: String,
    pub website: String,
}

/// A user account.
#[derive(Clone, Debug)]
pub struct User {
    pub admin: bool,
    pub id: i32,
    pub name: String,
}

/// A bare password, as the password-change endpoint sends it.
#[derive(Clone, Debug)]
pub struct UserPass {
    pub pass: String,
}

/// A user account together with its password.
#[derive(Clone, Debug)]
pub struct UserWithPass {
    pub admin: bool,
    pub id: i32,
    pub name: String,
    pub pass: String,
}

/// The server's version information.  On the wire, `build_date` is
/// `buildDate`.
#[derive(Clone, Debug)]
pub struct VersionInfo {
    pub build_date: String,
    pub commit: String,
    pub version: String,
}

} // verus!
