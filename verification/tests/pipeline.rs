use directory_query::config::{BindPolicy, DirectoryConfig};
use directory_query::credential::CredentialKey;
use directory_query::entry::DirectoryEntry;
use directory_query::failure::{PipelineError, StoreFault};
use directory_query::pipeline::{Action, Event, Pipeline};
use directory_query::projection::ProjectedRecord;
use directory_query::request::SearchScope;

const FILTER: &str = "(sAMAccountName=jdoe)";

fn entry(dn: &str, attrs: &[(&str, &[&str])]) -> DirectoryEntry {
    let mut e = DirectoryEntry::new(dn.to_string());
    for (name, values) in attrs {
        e.insert(name.to_string(), values.iter().map(|v| v.to_string()).collect());
    }
    e
}

fn start(policy: BindPolicy, endpoint: Option<&str>) -> (Pipeline, Action) {
    Pipeline::begin_as(
        DirectoryConfig::builtin().with_bind_policy(policy),
        FILTER.to_string(),
        endpoint.map(|e| e.to_string()),
        "jdoe".to_string(),
    )
}

fn failure(action: &Action) -> Option<PipelineError> {
    match action {
        Action::Fail(error) => Some(*error),
        _ => None,
    }
}

fn kind(action: &Action) -> &'static str {
    match action {
        Action::FetchSecret(_) => "fetch",
        Action::Connect(_) => "connect",
        Action::Bind(_) => "bind",
        Action::Search(_) => "search",
        Action::Deliver(_) => "deliver",
        Action::Fail(_) => "fail",
    }
}

/// Drives a run up to the search, checking each action on the way.
fn run_to_search(policy: BindPolicy) -> Pipeline {
    let (run, action) = start(policy, None);
    assert_eq!(kind(&action), "fetch");
    let (run, action) = run.step(Event::Lookup(Ok("s3cret".to_string())));
    assert_eq!(kind(&action), "connect");
    let (run, action) = run.step(Event::Connected);
    assert_eq!(kind(&action), "bind");
    let (run, action) = run.step(Event::BindAccepted);
    assert_eq!(kind(&action), "search");
    assert!(!run.is_finished());
    run
}

#[test]
fn run_starts_by_asking_for_the_secret_of_the_user() {
    let (run, action) = start(BindPolicy::Abort, None);
    assert!(!run.is_finished());
    match action {
        Action::FetchSecret(key) => assert_eq!(
            key,
            CredentialKey {
                namespace: "pln".to_string(),
                service: "keyring-cli".to_string(),
                account: "jdoe".to_string(),
            }
        ),
        other => panic!("expected a lookup, got {}", kind(&other)),
    }
}

#[test]
fn begin_looks_up_the_secret_of_the_process_owner() {
    let (run, action) = Pipeline::begin(DirectoryConfig::builtin(), FILTER.to_string(), None);
    assert!(!run.is_finished());
    match action {
        Action::FetchSecret(key) => {
            assert_eq!(key.namespace, "pln");
            assert_eq!(key.service, "keyring-cli");
            assert_eq!(key.account, whoami::username());
            assert!(!key.account.is_empty());
        },
        other => panic!("expected a lookup, got {}", kind(&other)),
    }
    let (_, action) = run.step(Event::Lookup(Ok("pw".to_string())));
    match action {
        Action::Connect(target) => assert_eq!(target.endpoint, "ldap://10.1.8.20:389"),
        other => panic!("expected a connect, got {}", kind(&other)),
    }
}

#[test]
fn single_matching_entry_gives_one_record() {
    let run = run_to_search(BindPolicy::Abort);
    let found = vec![entry("cn=jdoe", &[("name", &["John Doe"]), ("department", &["IT"])])];
    let (run, action) = run.step(Event::SearchCompleted(found));
    assert!(run.is_finished());
    match action {
        Action::Deliver(records) => assert_eq!(
            records,
            vec![ProjectedRecord {
                name: "John Doe".to_string(),
                description: String::new(),
                department: "IT".to_string(),
                title: String::new(),
                company: String::new(),
                mobile: String::new(),
                employee_type: String::new(),
            }]
        ),
        other => panic!("expected records, got {}", kind(&other)),
    }
}

#[test]
fn no_matching_entry_gives_an_empty_result_and_no_error() {
    let run = run_to_search(BindPolicy::Abort);
    let (run, action) = run.step(Event::SearchCompleted(Vec::new()));
    assert!(run.is_finished());
    match action {
        Action::Deliver(records) => assert!(records.is_empty()),
        other => panic!("expected records, got {}", kind(&other)),
    }
}

#[test]
fn failed_search_gives_one_failure_and_no_records() {
    let run = run_to_search(BindPolicy::Abort);
    let (run, action) = run.step(Event::SearchFailed);
    assert!(run.is_finished());
    assert_eq!(failure(&action), Some(PipelineError::SearchError));
    let error = failure(&action).unwrap();
    assert_eq!(error.label(), "Plugin call with wrong name signature");
    assert_eq!(
        error.message(),
        "the signature used to call the plugin does not match any name in the plugin signature vector"
    );
    let late = vec![entry("cn=late", &[("name", &["Late"])])];
    let (run, action) = run.step(Event::SearchCompleted(late));
    assert!(run.is_finished());
    assert_eq!(failure(&action), Some(PipelineError::SignatureMismatch));
}

#[test]
fn records_are_delivered_in_the_order_of_the_entries() {
    let run = run_to_search(BindPolicy::Abort);
    let found = vec![
        entry("cn=z", &[("name", &["Zed", "Zee"])]),
        entry("cn=a", &[("title", &["Clerk"])]),
        entry("cn=m", &[("name", &["Em"]), ("mobile", &[])]),
    ];
    let (_, action) = run.step(Event::SearchCompleted(found));
    match action {
        Action::Deliver(records) => {
            assert_eq!(records.len(), 3);
            assert_eq!(records[0].name, "Zed");
            assert_eq!(records[1].name, "");
            assert_eq!(records[1].title, "Clerk");
            assert_eq!(records[2].name, "Em");
            assert_eq!(records[2].mobile, "");
        },
        other => panic!("expected records, got {}", kind(&other)),
    }
}

#[test]
fn missing_credential_fails_without_a_connection_attempt() {
    for fault in [StoreFault::SecretUnreadable, StoreFault::EntryUnavailable] {
        let (run, action) = start(BindPolicy::Abort, None);
        assert_eq!(kind(&action), "fetch");
        let (run, action) = run.step(Event::Lookup(Err(fault)));
        assert_eq!(failure(&action), Some(PipelineError::CredentialUnavailable(fault)));
        assert!(run.is_finished());
        let (run, action) = run.step(Event::Connected);
        assert_eq!(failure(&action), Some(PipelineError::SignatureMismatch));
        let (run, action) = run.step(Event::Lookup(Ok("late".to_string())));
        assert_eq!(failure(&action), Some(PipelineError::SignatureMismatch));
        let (run, action) = run.step(Event::BindAccepted);
        assert_eq!(failure(&action), Some(PipelineError::SignatureMismatch));
        assert!(run.is_finished());
    }
}

#[test]
fn unreadable_secret_and_missing_entry_differ_in_message_only() {
    let (run, _) = start(BindPolicy::Abort, None);
    let (_, action) = run.step(Event::Lookup(Err(StoreFault::EntryUnavailable)));
    let entry_error = failure(&action).unwrap();
    let (run, _) = start(BindPolicy::Abort, None);
    let (_, action) = run.step(Event::Lookup(Err(StoreFault::SecretUnreadable)));
    let secret_error = failure(&action).unwrap();
    assert_eq!(entry_error.label(), "Error");
    assert_eq!(secret_error.label(), "Error");
    assert_eq!(entry_error.message(), "Failed to get keyring entry");
    assert_eq!(secret_error.message(), "Failed to get password from keyring storage");
}

#[test]
fn connection_goes_to_the_default_endpoint() {
    let (run, _) = start(BindPolicy::Abort, None);
    let (_, action) = run.step(Event::Lookup(Ok("pw".to_string())));
    match action {
        Action::Connect(target) => assert_eq!(target.endpoint, "ldap://10.1.8.20:389"),
        other => panic!("expected a connect, got {}", kind(&other)),
    }
}

#[test]
fn connection_goes_to_the_endpoint_of_the_caller() {
    let (run, _) = start(BindPolicy::Abort, Some("ldap://127.0.0.1:3890"));
    let (_, action) = run.step(Event::Lookup(Ok("pw".to_string())));
    match action {
        Action::Connect(target) => assert_eq!(target.endpoint, "ldap://127.0.0.1:3890"),
        other => panic!("expected a connect, got {}", kind(&other)),
    }
}

#[test]
fn unreachable_endpoint_is_a_connection_error() {
    let (run, _) = start(BindPolicy::Abort, Some("not a url"));
    let (run, _) = run.step(Event::Lookup(Ok("pw".to_string())));
    let (run, action) = run.step(Event::ConnectFailed);
    assert_eq!(failure(&action), Some(PipelineError::ConnectionError));
    assert!(run.is_finished());
}

#[test]
fn bind_presents_the_fixed_account_and_the_secret() {
    let (run, _) = start(BindPolicy::Abort, None);
    let (run, _) = run.step(Event::Lookup(Ok("s3cret".to_string())));
    let (_, action) = run.step(Event::Connected);
    match action {
        Action::Bind(request) => {
            assert_eq!(request.account, "pusat\\darwis2");
            assert_eq!(request.secret, "s3cret");
        },
        other => panic!("expected a bind, got {}", kind(&other)),
    }
}

#[test]
fn search_is_rooted_at_the_base_with_the_filter_of_the_caller() {
    let (run, _) = start(BindPolicy::Abort, None);
    let (run, _) = run.step(Event::Lookup(Ok("pw".to_string())));
    let (run, _) = run.step(Event::Connected);
    let (_, action) = run.step(Event::BindAccepted);
    match action {
        Action::Search(request) => {
            assert_eq!(request.base, "DC=pusat,DC=corp,DC=pln,DC=co,DC=id");
            assert_eq!(request.scope, SearchScope::Subtree);
            assert_eq!(request.filter, FILTER);
            assert_eq!(request.attributes, DirectoryConfig::builtin().attributes);
        },
        other => panic!("expected a search, got {}", kind(&other)),
    }
}

#[test]
fn rejected_bind_stops_the_run() {
    let (run, _) = start(BindPolicy::Abort, None);
    let (run, _) = run.step(Event::Lookup(Ok("wrong".to_string())));
    let (run, _) = run.step(Event::Connected);
    let (run, action) = run.step(Event::BindRejected);
    assert_eq!(failure(&action), Some(PipelineError::AuthenticationFailed));
    assert!(run.is_finished());
    let (_, action) = run.step(Event::SearchCompleted(Vec::new()));
    assert_eq!(failure(&action), Some(PipelineError::SignatureMismatch));
}

#[test]
fn rejected_bind_is_passed_over_where_the_policy_says_so() {
    let (run, _) = start(BindPolicy::Proceed, None);
    let (run, _) = run.step(Event::Lookup(Ok("wrong".to_string())));
    let (run, _) = run.step(Event::Connected);
    let (run, action) = run.step(Event::BindRejected);
    match &action {
        Action::Search(request) => assert_eq!(request.filter, FILTER),
        other => panic!("expected a search, got {}", kind(other)),
    }
    assert!(!run.is_finished());
    let found = vec![entry("cn=a", &[("name", &["A"])])];
    let (_, action) = run.step(Event::SearchCompleted(found));
    match action {
        Action::Deliver(records) => assert_eq!(records[0].name, "A"),
        other => panic!("expected records, got {}", kind(&other)),
    }
}

#[test]
fn event_out_of_turn_is_a_signature_mismatch() {
    let (run, _) = start(BindPolicy::Abort, None);
    let (run, action) = run.step(Event::Connected);
    assert_eq!(failure(&action), Some(PipelineError::SignatureMismatch));
    assert!(run.is_finished());

    let (run, _) = start(BindPolicy::Abort, None);
    let (run, _) = run.step(Event::Lookup(Ok("pw".to_string())));
    let (_, action) = run.step(Event::BindAccepted);
    assert_eq!(failure(&action), Some(PipelineError::SignatureMismatch));

    let (run, _) = start(BindPolicy::Abort, None);
    let (run, _) = run.step(Event::Lookup(Ok("pw".to_string())));
    let (run, _) = run.step(Event::Connected);
    let (_, action) = run.step(Event::SearchCompleted(Vec::new()));
    assert_eq!(failure(&action), Some(PipelineError::SignatureMismatch));

    let run = run_to_search(BindPolicy::Abort);
    let (_, action) = run.step(Event::Lookup(Ok("again".to_string())));
    assert_eq!(failure(&action), Some(PipelineError::SignatureMismatch));
}

#[test]
fn finished_run_delivers_nothing_more() {
    let run = run_to_search(BindPolicy::Abort);
    let (run, action) = run.step(Event::SearchCompleted(Vec::new()));
    assert_eq!(kind(&action), "deliver");
    let again = vec![entry("cn=a", &[("name", &["A"])])];
    let (run, action) = run.step(Event::SearchCompleted(again));
    assert_eq!(failure(&action), Some(PipelineError::SignatureMismatch));
    let (run, action) = run.step(Event::SearchFailed);
    assert_eq!(failure(&action), Some(PipelineError::SignatureMismatch));
    assert!(run.is_finished());
}
