//! The ways in which a run can fail, and how each is reported to the host.

use vstd::prelude::*;

verus! {

/// Which step of a credential lookup failed.
#[derive(Clone, Copy, Debug, PartialEq, Eq, Structural)]
pub enum StoreFault {
    /// The credential store gave no handle for the lookup key.
    EntryUnavailable,
    /// A handle was there, but no secret could be read through it: nothing is
    /// stored under the key, access was denied, or the stored item is damaged.
    /// These causes are not told apart.
    SecretUnreadable,
}

/// Why a run ended without records.
#[derive(Clone, Copy, Debug, PartialEq, Eq, Structural)]
pub enum PipelineError {
    /// No secret could be had from the credential store.
    CredentialUnavailable(StoreFault),
    /// The connection to the directory server could not be opened.
    ConnectionError,
    /// The directory server did not accept the bind.
    AuthenticationFailed,
    /// The server rejected the filter, or the search failed while it ran.
    SearchError,
    /// The pipeline was driven in a way that its protocol does not know.
    SignatureMismatch,
}

/// The short label under which a failure is reported.
pub open spec fn label_of(error: PipelineError) -> Seq<char> {
    match error {
        PipelineError::CredentialUnavailable(_) => "Error"@,
        PipelineError::ConnectionError => "Error"@,
        PipelineError::AuthenticationFailed => "Error"@,
        PipelineError::SearchError => "Plugin call with wrong name signature"@,
        PipelineError::SignatureMismatch => "Plugin call with wrong name signature"@,
    }
}

/// The sentence that explains a failure to the user.
pub open spec fn message_of(error: PipelineError) -> Seq<char> {
    match error {
        PipelineError::CredentialUnavailable(StoreFault::EntryUnavailable) =>
            "Failed to get keyring entry"@,
        PipelineError::CredentialUnavailable(StoreFault::SecretUnreadable) =>
            "Failed to get password from keyring storage"@,
        PipelineError::ConnectionError => "Failed to connect to ldap server"@,
        PipelineError::AuthenticationFailed => "Failed to bind to ldap server"@,
        PipelineError::SearchError =>
            "the signature used to call the plugin does not match any name in the plugin signature vector"@,
        PipelineError::SignatureMismatch =>
            "the signature used to call the plugin does not match any name in the plugin signature vector"@,
    }
}

impl PipelineError {
    /// The short label under which this failure is reported.
    pub fn label(&self) -> (text: String)
        ensures
            text@ == label_of(*self),
    {
        match self {
            PipelineError::CredentialUnavailable(_) => "Error".to_owned(),
            PipelineError::ConnectionError => "Error".to_owned(),
            PipelineError::AuthenticationFailed => "Error".to_owned(),
            PipelineError::SearchError => "Plugin call with wrong name signature".to_owned(),
            PipelineError::SignatureMismatch => "Plugin call with wrong name signature".to_owned(),
        }
    }

    /// The sentence that explains this failure to the user.
    pub fn message(&self) -> (text: String)
        ensures
            text@ == message_of(*self),
    {
        match self {
            PipelineError::CredentialUnavailable(StoreFault::EntryUnavailable) =>
                "Failed to get keyring entry".to_owned(),
            PipelineError::CredentialUnavailable(StoreFault::SecretUnreadable) =>
                "Failed to get password from keyring storage".to_owned(),
            PipelineError::ConnectionError => "Failed to connect to ldap server".to_owned(),
            PipelineError::AuthenticationFailed => "Failed to bind to ldap server".to_owned(),
            PipelineError::SearchError =>
                "the signature used to call the plugin does not match any name in the plugin signature vector".to_owned(),
            PipelineError::SignatureMismatch =>
                "the signature used to call the plugin does not match any name in the plugin signature vector".to_owned(),
        }
    }
}

} // verus!
