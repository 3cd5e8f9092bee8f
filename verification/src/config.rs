//! The fixed facts of a deployment, gathered in one value that is handed to
//! every stage instead of being scattered through them as literals.

use vstd::prelude::*;

verus! {

/// What to do when the directory server does not accept the bind.
#[derive(Clone, Copy, Debug, PartialEq, Eq, Structural)]
pub enum BindPolicy {
    /// Stop the run and report an authentication failure.
    Abort,
    /// Search anyway, on the unauthenticated connection.
    Proceed,
}

/// The configuration of a deployment.
#[derive(Clone, Debug)]
pub struct DirectoryConfig {
    /// Namespace of the credential-store key.
    pub namespace: String,
    /// Service label of the credential-store key.
    pub service: String,
    /// Endpoint used when the caller names none.
    pub endpoint: String,
    /// Domain of the account that binds to the directory.
    pub bind_domain: String,
    /// Name of the account that binds to the directory.
    pub bind_account: String,
    /// Distinguished name under which every search is rooted.
    pub base: String,
    /// Attribute names sent to the server with every search, in order.
    pub attributes: Vec<String>,
    /// Whether a rejected bind ends the run.
    pub on_bind_failure: BindPolicy,
}

/// A configuration as plain mathematical values.
pub struct ConfigView {
    pub namespace: Seq<char>,
    pub service: Seq<char>,
    pub endpoint: Seq<char>,
    pub bind_domain: Seq<char>,
    pub bind_account: Seq<char>,
    pub base: Seq<char>,
    pub attributes: Seq<Seq<char>>,
    pub on_bind_failure: BindPolicy,
}

impl View for DirectoryConfig {
    type V = ConfigView;

    open spec fn view(&self) -> ConfigView {
        ConfigView {
            namespace: self.namespace@,
            service: self.service@,
            endpoint: self.endpoint@,
            bind_domain: self.bind_domain@,
            bind_account: self.bind_account@,
            base: self.base@,
            attributes: self.attributes.deep_view(),
            on_bind_failure: self.on_bind_failure,
        }
    }
}

/// The attribute names of the built-in configuration, in the order in which
/// they are sent. `sAMAccountName` stands in the list twice.
pub open spec fn builtin_attributes() -> Seq<Seq<char>> {
    seq![
        "l"@,
        "title"@,
        "personalTitle"@,
        "sAMAccountName"@,
        "name"@,
        "displayName"@,
        "givenName"@,
        "description"@,
        "employeeType"@,
        "mail"@,
        "memberOf"@,
        "st"@,
        "company"@,
        "streetAddress"@,
        "department"@,
        "mobile"@,
        "sAMAccountName"@,
        "employeeNumber"@,
        "dn"@,
        "lastLogon"@,
        "distinguishedName"@,
    ]
}

/// The built-in configuration.
pub open spec fn builtin_config() -> ConfigView {
    ConfigView {
        namespace: "pln"@,
        service: "keyring-cli"@,
        endpoint: "ldap://10.1.8.20:389"@,
        bind_domain: "pusat"@,
        bind_account: "darwis2"@,
        base: "DC=pusat,DC=corp,DC=pln,DC=co,DC=id"@,
        attributes: builtin_attributes(),
        on_bind_failure: BindPolicy::Abort,
    }
}

/// Owned copies of the given names, in the same order.
pub(crate) fn owned_names(names: &Vec<String>) -> (copy: Vec<String>)
    ensures
        copy.deep_view() == names.deep_view(),
{
    let mut copy: Vec<String> = Vec::new();
    let mut i: usize = 0;
    while i < names.len()
        invariant
            i <= names.len(),
            copy.len() == i,
            forall|j: int| 0 <= j < i ==> copy@[j]@ == names@[j]@,
        decreases names.len() - i,
    {
        copy.push(names[i].clone());
        i = i + 1;
    }
    assert(copy.deep_view() =~= names.deep_view());
    copy
}

impl DirectoryConfig {
    /// The built-in configuration: the credential key's namespace and service
    /// label, the default endpoint, the binding account, the search base and
    /// the attribute list. A rejected bind ends the run.
    pub fn builtin() -> (config: DirectoryConfig)
        ensures
            config@ == builtin_config(),
    {
        let mut attributes: Vec<String> = Vec::new();
        attributes.push("l".to_owned());
        attributes.push("title".to_owned());
        attributes.push("personalTitle".to_owned());
        attributes.push("sAMAccountName".to_owned());
        attributes.push("name".to_owned());
        attributes.push("displayName".to_owned());
        attributes.push("givenName".to_owned());
        attributes.push("description".to_owned());
        attributes.push("employeeType".to_owned());
        attributes.push("mail".to_owned());
        attributes.push("memberOf".to_owned());
        attributes.push("st".to_owned());
        attributes.push("company".to_owned());
        attributes.push("streetAddress".to_owned());
        attributes.push("department".to_owned());
        attributes.push("mobile".to_owned());
        attributes.push("sAMAccountName".to_owned());
        attributes.push("employeeNumber".to_owned());
        attributes.push("dn".to_owned());
        attributes.push("lastLogon".to_owned());
        attributes.push("distinguishedName".to_owned());
        assert(attributes.deep_view() =~= builtin_attributes());
        DirectoryConfig {
            namespace: "pln".to_owned(),
            service: "keyring-cli".to_owned(),
            endpoint: "ldap://10.1.8.20:389".to_owned(),
            bind_domain: "pusat".to_owned(),
            bind_account: "darwis2".to_owned(),
            base: "DC=pusat,DC=corp,DC=pln,DC=co,DC=id".to_owned(),
            attributes,
            on_bind_failure: BindPolicy::Abort,
        }
    }

    /// The same configuration with another policy for a rejected bind.
    pub fn with_bind_policy(self, policy: BindPolicy) -> (config: DirectoryConfig)
        ensures
            config@ == (ConfigView { on_bind_failure: policy, ..self@ }),
    {
        DirectoryConfig { on_bind_failure: policy, ..self }
    }
}

} // verus!
