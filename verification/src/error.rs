//! The failures the request builder itself can report.  Transport and
//! deserialization failures belong to whichever HTTP capability executes the
//! plans; they never arise while a request is being constructed.

use vstd::prelude::*;

verus! {

/// Why a request could not be built.
#[derive(Clone, Copy, Debug, PartialEq, Eq, Structural)]
pub enum GotifyError {
    /// The method string did not name one of the verbs GET, POST, PUT, DELETE.
    InvalidVerb,
    /// The credential the request needs is not configured on the holder.
    MissingCredential,
}

impl GotifyError {
    /// A short description of the failure, for embedding in caller-side errors.
    pub fn describe(&self) -> (r: &'static str)
        ensures
            *self == GotifyError::InvalidVerb ==> r@ == "unrecognized HTTP verb"@,
            *self == GotifyError::MissingCredential ==> r@ == "the selected credential is not set"@,
    {
        match self {
            GotifyError::InvalidVerb => "unrecognized HTTP verb",
            GotifyError::MissingCredential => "the selected credential is not set",
        }
    }
}

} // verus!
