use directory_query::config::{BindPolicy, DirectoryConfig};
use directory_query::credential::{lookup_key, resolve, CredentialKey};
use directory_query::failure::{PipelineError, StoreFault};
use directory_query::request::{
    bind_identity, bind_request, connection_target, search_request, SearchScope,
};

#[test]
fn builtin_configuration_has_the_fixed_values() {
    let config = DirectoryConfig::builtin();
    assert_eq!(config.namespace, "pln");
    assert_eq!(config.service, "keyring-cli");
    assert_eq!(config.endpoint, "ldap://10.1.8.20:389");
    assert_eq!(config.bind_domain, "pusat");
    assert_eq!(config.bind_account, "darwis2");
    assert_eq!(config.base, "DC=pusat,DC=corp,DC=pln,DC=co,DC=id");
    assert_eq!(config.on_bind_failure, BindPolicy::Abort);
}

#[test]
fn builtin_attribute_list_is_sent_in_its_fixed_order() {
    let config = DirectoryConfig::builtin();
    let expected = vec![
        "l",
        "title",
        "personalTitle",
        "sAMAccountName",
        "name",
        "displayName",
        "givenName",
        "description",
        "employeeType",
        "mail",
        "memberOf",
        "st",
        "company",
        "streetAddress",
        "department",
        "mobile",
        "sAMAccountName",
        "employeeNumber",
        "dn",
        "lastLogon",
        "distinguishedName",
    ];
    assert_eq!(config.attributes, expected);
    assert_eq!(config.attributes.len(), 21);
}

#[test]
fn bind_policy_can_be_changed_and_nothing_else_changes() {
    let config = DirectoryConfig::builtin().with_bind_policy(BindPolicy::Proceed);
    let builtin = DirectoryConfig::builtin();
    assert_eq!(config.on_bind_failure, BindPolicy::Proceed);
    assert_eq!(config.namespace, builtin.namespace);
    assert_eq!(config.service, builtin.service);
    assert_eq!(config.endpoint, builtin.endpoint);
    assert_eq!(config.bind_domain, builtin.bind_domain);
    assert_eq!(config.bind_account, builtin.bind_account);
    assert_eq!(config.base, builtin.base);
    assert_eq!(config.attributes, builtin.attributes);
}

#[test]
fn lookup_key_joins_namespace_service_and_user() {
    let key = lookup_key(&DirectoryConfig::builtin(), "jdoe".to_string());
    assert_eq!(
        key,
        CredentialKey {
            namespace: "pln".to_string(),
            service: "keyring-cli".to_string(),
            account: "jdoe".to_string(),
        }
    );
}

#[test]
fn resolve_keeps_identity_and_secret() {
    let key = lookup_key(&DirectoryConfig::builtin(), "jdoe".to_string());
    let credential = match resolve(key, Ok("s3cret".to_string())) {
        Ok(credential) => credential,
        Err(error) => panic!("unexpected failure: {:?}", error),
    };
    assert_eq!(credential.namespace(), "pln");
    assert_eq!(credential.service(), "keyring-cli");
    assert_eq!(credential.account_identity(), "jdoe");
    assert_eq!(credential.secret(), "s3cret");
    assert_eq!(credential.into_secret(), "s3cret");
}

#[test]
fn resolve_reports_credential_unavailable_for_either_fault() {
    for fault in [StoreFault::EntryUnavailable, StoreFault::SecretUnreadable] {
        let key = lookup_key(&DirectoryConfig::builtin(), "jdoe".to_string());
        match resolve(key, Err(fault)) {
            Ok(_) => panic!("a failed lookup gave a credential"),
            Err(error) => assert_eq!(error, PipelineError::CredentialUnavailable(fault)),
        }
    }
}

#[test]
fn endpoint_defaults_to_the_configured_one() {
    let config = DirectoryConfig::builtin();
    assert_eq!(connection_target(&config, None).endpoint, "ldap://10.1.8.20:389");
}

#[test]
fn endpoint_of_the_caller_overrides_the_default() {
    let config = DirectoryConfig::builtin();
    let target = connection_target(&config, Some("ldap://directory.example.org:1389".to_string()));
    assert_eq!(target.endpoint, "ldap://directory.example.org:1389");
    let odd = connection_target(&config, Some(String::new()));
    assert_eq!(odd.endpoint, "");
}

#[test]
fn bind_identity_is_domain_backslash_account() {
    let config = DirectoryConfig::builtin();
    assert_eq!(bind_identity(&config), "pusat\\darwis2");
    let mut other = DirectoryConfig::builtin();
    other.bind_domain = "corp".to_string();
    other.bind_account = "svc".to_string();
    assert_eq!(bind_identity(&other), "corp\\svc");
}

#[test]
fn bind_request_carries_account_and_secret() {
    let request = bind_request(&DirectoryConfig::builtin(), "pw".to_string());
    assert_eq!(request.account, "pusat\\darwis2");
    assert_eq!(request.secret, "pw");
}

#[test]
fn search_request_is_a_subtree_search_with_the_filter_verbatim() {
    let config = DirectoryConfig::builtin();
    let filter = "(&(objectClass=user)(sAMAccountName=j*))".to_string();
    let request = search_request(&config, &filter);
    assert_eq!(request.base, "DC=pusat,DC=corp,DC=pln,DC=co,DC=id");
    assert_eq!(request.scope, SearchScope::Subtree);
    assert_eq!(request.filter, filter);
    assert_eq!(request.attributes, config.attributes);
}

#[test]
fn ill_formed_filter_is_passed_through() {
    let config = DirectoryConfig::builtin();
    let filter = "((not a filter".to_string();
    assert_eq!(search_request(&config, &filter).filter, "((not a filter");
    assert_eq!(search_request(&config, &String::new()).filter, "");
}

#[test]
fn failures_are_reported_with_label_and_message() {
    let cases = [
        (
            PipelineError::CredentialUnavailable(StoreFault::EntryUnavailable),
            "Error",
            "Failed to get keyring entry",
        ),
        (
            PipelineError::CredentialUnavailable(StoreFault::SecretUnreadable),
            "Error",
            "Failed to get password from keyring storage",
        ),
        (PipelineError::ConnectionError, "Error", "Failed to connect to ldap server"),
        (PipelineError::AuthenticationFailed, "Error", "Failed to bind to ldap server"),
        (
            PipelineError::SearchError,
            "Plugin call with wrong name signature",
            "the signature used to call the plugin does not match any name in the plugin signature vector",
        ),
        (
            PipelineError::SignatureMismatch,
            "Plugin call with wrong name signature",
            "the signature used to call the plugin does not match any name in the plugin signature vector",
        ),
    ];
    for (error, label, message) in cases {
        assert_eq!(error.label(), label);
        assert_eq!(error.message(), message);
    }
}
