//! What is asked of the directory server: where to connect, whom to bind as,
//! and what to search for.

use crate::config::{owned_names, ConfigView, DirectoryConfig};
use vstd::prelude::*;

verus! {

/// Where to connect. Fixed for the run.
#[derive(Clone, Debug, PartialEq, Eq)]
pub struct ConnectionTarget {
    pub endpoint: String,
}

impl View for ConnectionTarget {
    type V = Seq<char>;

    open spec fn view(&self) -> Seq<char> {
        self.endpoint@
    }
}

/// How far below the base a search reaches.
#[derive(Clone, Copy, Debug, PartialEq, Eq, Structural)]
pub enum SearchScope {
    /// The base entry alone.
    Base,
    /// The entries directly below the base.
    OneLevel,
    /// The base entry and everything below it.
    Subtree,
}

/// A simple bind: the account that binds, and its secret. It has no textual
/// form, so that the secret cannot end up in a log.
pub struct BindRequest {
    pub account: String,
    pub secret: String,
}

/// A bind as plain mathematical values.
pub struct BindView {
    pub account: Seq<char>,
    pub secret: Seq<char>,
}

impl View for BindRequest {
    type V = BindView;

    open spec fn view(&self) -> BindView {
        BindView { account: self.account@, secret: self.secret@ }
    }
}

/// A search: base, scope, filter, and the attribute names sent along.
#[derive(Clone, Debug, PartialEq, Eq)]
pub struct SearchRequest {
    pub base: String,
    pub scope: SearchScope,
    pub filter: String,
    pub attributes: Vec<String>,
}

/// A search as plain mathematical values.
pub struct SearchView {
    pub base: Seq<char>,
    pub scope: SearchScope,
    pub filter: Seq<char>,
    pub attributes: Seq<Seq<char>>,
}

impl View for SearchRequest {
    type V = SearchView;

    open spec fn view(&self) -> SearchView {
        SearchView {
            base: self.base@,
            scope: self.scope,
            filter: self.filter@,
            attributes: self.attributes.deep_view(),
        }
    }
}

/// An optional text as plain mathematical values.
pub open spec fn text_of(text: Option<String>) -> Option<Seq<char>> {
    match text {
        Some(t) => Some(t@),
        None => None,
    }
}

/// The endpoint of a run: the caller's, where one is given, else the
/// configured one.
pub open spec fn target_for(config: ConfigView, endpoint: Option<Seq<char>>) -> Seq<char> {
    match endpoint {
        Some(named) => named,
        None => config.endpoint,
    }
}

/// The account that binds: domain, a backslash, account name.
pub open spec fn bind_identity_of(config: ConfigView) -> Seq<char> {
    config.bind_domain + seq!['\\'] + config.bind_account
}

/// The bind that presents `secret` for the configured account.
pub open spec fn bind_for(config: ConfigView, secret: Seq<char>) -> BindView {
    BindView { account: bind_identity_of(config), secret }
}

/// The search for `filter`: over the whole subtree below the configured base,
/// with the filter as the caller wrote it and the configured attribute names.
pub open spec fn search_for(config: ConfigView, filter: Seq<char>) -> SearchView {
    SearchView {
        base: config.base,
        scope: SearchScope::Subtree,
        filter,
        attributes: config.attributes,
    }
}

/// Picks the endpoint of a run.
pub fn connection_target(config: &DirectoryConfig, endpoint: Option<String>) -> (target:
    ConnectionTarget)
    ensures
        target@ == target_for(config@, text_of(endpoint)),
{
    match endpoint {
        Some(named) => ConnectionTarget { endpoint: named },
        None => ConnectionTarget { endpoint: config.endpoint.clone() },
    }
}

/// The domain-qualified name of the account that binds.
pub fn bind_identity(config: &DirectoryConfig) -> (account: String)
    ensures
        account@ == bind_identity_of(config@),
{
    let mut account = config.bind_domain.clone();
    proof {
        reveal_strlit("\\");
    }
    account.append("\\");
    account.append(config.bind_account.as_str());
    assert("\\"@ =~= seq!['\\']);
    account
}

/// Builds the bind for a secret.
pub fn bind_request(config: &DirectoryConfig, secret: String) -> (request: BindRequest)
    ensures
        request@ == bind_for(config@, secret@),
{
    BindRequest { account: bind_identity(config), secret }
}

/// Builds the search for a filter. The filter is passed through unread: an
/// ill-formed one is for the server to reject.
pub fn search_request(config: &DirectoryConfig, filter: &String) -> (request: SearchRequest)
    ensures
        request@ == search_for(config@, filter@),
{
    SearchRequest {
        base: config.base.clone(),
        scope: SearchScope::Subtree,
        filter: filter.clone(),
        attributes: owned_names(&config.attributes),
    }
}

} // verus!
