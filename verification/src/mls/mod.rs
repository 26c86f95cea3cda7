//! MLS group messaging: the application payload carried inside MLS
//! messages and the wire framing of Welcome bundles.
use vstd::prelude::*;

use vstd::string::StringExecFns;

pub mod application;
pub mod commands;
pub mod facade;
pub mod framing;

pub use facade::{MlsAdmission, MlsClient, MlsGroupState, MlsKeyPackage, MlsProcessed, MlsWelcome};

verus! {

/// Error returned by the MLS layer, with its message.
#[derive(Debug, Clone, PartialEq, Eq)]
pub struct MlsError(pub String);

impl MlsError {
    /// Error with a static message.
    pub fn msg(s: &str) -> (e: MlsError)
        ensures
            e.0@ == s@,
    {
        MlsError(s.to_owned())
    }

    /// The message shown to users: `MLS operation failed: {message}`.
    pub fn to_string(&self) -> (s: String)
        ensures
            s@ == "MLS operation failed: "@ + self.0@,
    {
        let mut s = "MLS operation failed: ".to_owned();
        s.append(self.0.as_str());
        s
    }
}

} // verus!
