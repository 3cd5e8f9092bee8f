//! Credential resolution: the key under which the secret is looked up, and
//! what becomes of the answer of the credential store.

use crate::config::{ConfigView, DirectoryConfig};
use crate::failure::{PipelineError, StoreFault};
use vstd::prelude::*;

verus! {

/// The key of a secret in the credential store.
#[derive(Clone, Debug, PartialEq, Eq)]
pub struct CredentialKey {
    pub namespace: String,
    pub service: String,
    pub account: String,
}

/// A lookup key as plain mathematical values.
pub struct KeyView {
    pub namespace: Seq<char>,
    pub service: Seq<char>,
    pub account: Seq<char>,
}

impl View for CredentialKey {
    type V = KeyView;

    open spec fn view(&self) -> KeyView {
        KeyView { namespace: self.namespace@, service: self.service@, account: self.account@ }
    }
}

/// A resolved credential: the identity it was looked up under, and the
/// secret. It lives for one run and is given up once the bind was requested.
/// It has no textual form, so that the secret cannot end up in a log.
pub struct Credential {
    namespace: String,
    service: String,
    account_identity: String,
    secret: String,
}

/// A credential as plain mathematical values.
pub struct CredentialView {
    pub namespace: Seq<char>,
    pub service: Seq<char>,
    pub account_identity: Seq<char>,
    pub secret: Seq<char>,
}

impl View for Credential {
    type V = CredentialView;

    closed spec fn view(&self) -> CredentialView {
        CredentialView {
            namespace: self.namespace@,
            service: self.service@,
            account_identity: self.account_identity@,
            secret: self.secret@,
        }
    }
}

/// The lookup key for `username` under a configuration: the configured
/// namespace and service label, and the user's name as the account.
pub open spec fn key_for(config: ConfigView, username: Seq<char>) -> KeyView {
    KeyView { namespace: config.namespace, service: config.service, account: username }
}

/// The credential that a key and the secret stored under it make up.
pub open spec fn credential_of(key: KeyView, secret: Seq<char>) -> CredentialView {
    CredentialView {
        namespace: key.namespace,
        service: key.service,
        account_identity: key.account,
        secret,
    }
}

/// Builds the lookup key for `username`.
pub fn lookup_key(config: &DirectoryConfig, username: String) -> (key: CredentialKey)
    ensures
        key@ == key_for(config@, username@),
{
    CredentialKey {
        namespace: config.namespace.clone(),
        service: config.service.clone(),
        account: username,
    }
}

/// Turns the answer of the credential store into a credential or a failure:
/// the credential where a secret was read, and `CredentialUnavailable`
/// otherwise, whatever the cause. There is one lookup per run and no second
/// attempt.
pub fn resolve(key: CredentialKey, answer: Result<String, StoreFault>) -> (resolved: Result<
    Credential,
    PipelineError,
>)
    ensures
        match (answer, resolved) {
            (Ok(secret), Ok(credential)) => credential@ == credential_of(key@, secret@),
            (Err(fault), Err(error)) => error == PipelineError::CredentialUnavailable(fault),
            _ => false,
        },
{
    match answer {
        Ok(secret) => Ok(
            Credential {
                namespace: key.namespace,
                service: key.service,
                account_identity: key.account,
                secret,
            },
        ),
        Err(fault) => Err(PipelineError::CredentialUnavailable(fault)),
    }
}

impl Credential {
    /// Namespace of the key that the secret was found under.
    pub fn namespace(&self) -> (text: &String)
        ensures
            text@ == self@.namespace,
    {
        &self.namespace
    }

    /// Service label of the key that the secret was found under.
    pub fn service(&self) -> (text: &String)
        ensures
            text@ == self@.service,
    {
        &self.service
    }

    /// The user whose secret this is.
    pub fn account_identity(&self) -> (text: &String)
        ensures
            text@ == self@.account_identity,
    {
        &self.account_identity
    }

    /// The secret.
    pub fn secret(&self) -> (text: &String)
        ensures
            text@ == self@.secret,
    {
        &self.secret
    }

    /// Gives up the credential for its secret.
    pub fn into_secret(self) -> (text: String)
        ensures
            text@ == self@.secret,
    {
        self.secret
    }
}

} // verus!
