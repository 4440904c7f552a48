use ali_dns_tool::config::{ConfigError, CredentialVar};
use ali_dns_tool::report::{RecordListing, RecordReceipt};
use ali_dns_tool::request::{ArgError, Field, Invocation, Request};
use ali_dns_tool::session::{Action, Event, Phase, Reply, Session};

/// What a run did: what it showed, whether it aborted or rejected, and every
/// request it handed to the stub.
struct Trace {
    shown: Vec<String>,
    aborted: Option<ConfigError>,
    rejected: Option<ArgError>,
    connected: bool,
    sent: Vec<Request>,
    session: Session,
}

fn drive(key: Option<&str>, secret: Option<&str>, inv: Invocation, stub: fn(&Request) -> Reply) -> Trace {
    let mut t = Trace { shown: vec![], aborted: None, rejected: None, connected: false, sent: vec![], session: Session::new() };
    let mut pending = vec![
        Event::Environment { key: key.map(|k| k.to_string()), secret: secret.map(|s| s.to_string()) },
    ];
    let mut command = Some(inv);
    while let Some(e) = pending.pop() {
        match t.session.step(e) {
            Action::Abort(err) => t.aborted = Some(err),
            Action::Connect(_) => {
                t.connected = true;
                if let Some(c) = command.take() {
                    pending.push(Event::Command(c));
                }
            },
            Action::Send(req) => {
                pending.push(Event::Reply(stub(&req)));
                t.sent.push(req);
            },
            Action::Report(text) => t.shown.push(text),
            Action::Reject(err) => t.rejected = Some(err),
            Action::Ignore => {},
        }
    }
    t
}

fn created(_: &Request) -> Reply {
    Reply::Created(RecordReceipt { request_id: "req-add".to_string(), record_id: "555".to_string() })
}

fn auth_rejected(_: &Request) -> Reply {
    Reply::Failed("API error: Request ID: r1, Code: InvalidAccessKeyId.NotFound, Message: Specified access key is not found.".to_string())
}

fn empty_list(_: &Request) -> Reply {
    Reply::Listed(RecordListing { total_count: 0, request_id: "req-list".to_string(), page_size: 20, records: vec![] })
}

fn s(v: &str) -> Option<String> {
    Some(v.to_string())
}

#[test]
fn add_sends_one_matching_request_and_shows_the_receipt() {
    let inv = Invocation::Add { domain_name: s("example.com"), sub_domain: s("www"), record_type: s("A"), value: s("1.2.3.4") };
    let t = drive(Some("id"), Some("secret"), inv, created);
    assert_eq!(t.sent.len(), 1);
    match &t.sent[0] {
        Request::Add { domain_name, sub_domain, record_type, value } => {
            assert_eq!(domain_name, "example.com");
            assert_eq!(sub_domain, "www");
            assert_eq!(record_type, "A");
            assert_eq!(value, "1.2.3.4");
        },
        _ => panic!("expected an add request"),
    }
    assert_eq!(t.shown, vec!["record 555 (request req-add)".to_string()]);
    assert_eq!(t.session.calls, 1);
    assert_eq!(t.session.phase, Phase::Finished);
}

#[test]
fn rejected_credentials_are_shown_once_without_retry() {
    let inv = Invocation::List { domain: s("example.com") };
    let t = drive(Some("id"), Some("secret"), inv, auth_rejected);
    assert_eq!(t.sent.len(), 1);
    assert_eq!(
        t.shown,
        vec!["API error: Request ID: r1, Code: InvalidAccessKeyId.NotFound, Message: Specified access key is not found.".to_string()]
    );
    assert_eq!(t.session.calls, 1);
}

#[test]
fn a_late_reply_after_a_failure_is_ignored() {
    let mut session = Session::new();
    assert!(matches!(session.step(Event::Environment { key: s("id"), secret: s("secret") }), Action::Connect(_)));
    assert!(matches!(session.step(Event::Command(Invocation::List { domain: s("example.com") })), Action::Send(_)));
    assert!(matches!(session.step(Event::Reply(auth_rejected(&Request::List { domain: "x".to_string() }))), Action::Report(_)));
    assert!(matches!(session.step(Event::Reply(empty_list(&Request::List { domain: "x".to_string() }))), Action::Ignore));
    assert!(matches!(session.step(Event::Command(Invocation::List { domain: s("example.com") })), Action::Ignore));
    assert_eq!(session.calls, 1);
    assert!(session.is_finished());
}

#[test]
fn empty_listing_shows_zero_records_without_error() {
    let t = drive(Some("id"), Some("secret"), Invocation::List { domain: s("example.com") }, empty_list);
    assert_eq!(t.sent.len(), 1);
    assert!(matches!(&t.sent[0], Request::List { domain } if domain == "example.com"));
    assert_eq!(t.shown, vec!["0 records\n".to_string()]);
}

#[test]
fn missing_key_stops_before_the_command_line() {
    let inv = Invocation::List { domain: s("example.com") };
    let t = drive(None, Some("secret"), inv, created);
    assert_eq!(t.aborted, Some(ConfigError::Missing(CredentialVar::Key)));
    assert!(!t.connected);
    assert!(t.sent.is_empty());
    assert!(t.shown.is_empty());
    assert_eq!(t.session.calls, 0);
}

#[test]
fn missing_secret_stops_before_the_command_line() {
    let inv = Invocation::List { domain: s("example.com") };
    let t = drive(Some("id"), None, inv, created);
    assert_eq!(t.aborted, Some(ConfigError::Missing(CredentialVar::Secret)));
    assert!(!t.connected);
    assert!(t.sent.is_empty());
}

#[test]
fn finished_run_ignores_a_command() {
    let mut session = Session::new();
    assert!(matches!(session.step(Event::Environment { key: None, secret: None }), Action::Abort(_)));
    assert!(matches!(session.step(Event::Command(Invocation::List { domain: s("example.com") })), Action::Ignore));
    assert_eq!(session.calls, 0);
}

#[test]
fn no_subcommand_shows_the_fallback_and_sends_nothing() {
    let t = drive(Some("id"), Some("secret"), Invocation::NoSubcommand, created);
    assert_eq!(t.shown, vec!["invalid sub command".to_string()]);
    assert!(t.sent.is_empty());
    assert_eq!(t.session.calls, 0);
}

#[test]
fn add_missing_any_field_sends_nothing() {
    let cases = vec![
        (Invocation::Add { domain_name: None, sub_domain: s("www"), record_type: s("A"), value: s("1.2.3.4") }, Field::DomainName),
        (Invocation::Add { domain_name: s("example.com"), sub_domain: None, record_type: s("A"), value: s("1.2.3.4") }, Field::SubDomain),
        (Invocation::Add { domain_name: s("example.com"), sub_domain: s("www"), record_type: None, value: s("1.2.3.4") }, Field::RecordType),
        (Invocation::Add { domain_name: s("example.com"), sub_domain: s("www"), record_type: s("A"), value: None }, Field::Value),
    ];
    for (inv, field) in cases {
        let t = drive(Some("id"), Some("secret"), inv, created);
        assert_eq!(t.rejected, Some(ArgError::Missing(field)));
        assert!(t.sent.is_empty());
        assert_eq!(t.session.calls, 0);
    }
}

#[test]
fn update_missing_any_field_sends_nothing() {
    let cases = vec![
        (Invocation::Update { id: None, sub_domain: s("www"), record_type: s("A"), value: s("1.2.3.4") }, Field::Id),
        (Invocation::Update { id: s("77"), sub_domain: None, record_type: s("A"), value: s("1.2.3.4") }, Field::SubDomain),
        (Invocation::Update { id: s("77"), sub_domain: s("www"), record_type: None, value: s("1.2.3.4") }, Field::RecordType),
        (Invocation::Update { id: s("77"), sub_domain: s("www"), record_type: s("A"), value: None }, Field::Value),
    ];
    for (inv, field) in cases {
        let t = drive(Some("id"), Some("secret"), inv, created);
        assert_eq!(t.rejected, Some(ArgError::Missing(field)));
        assert!(t.sent.is_empty());
        assert_eq!(t.session.calls, 0);
    }
}

#[test]
fn update_shows_the_updated_receipt() {
    let inv = Invocation::Update { id: s("77"), sub_domain: s("www"), record_type: s("A"), value: s("5.6.7.8") };
    let t = drive(Some("id"), Some("secret"), inv, |_| {
        Reply::Updated(RecordReceipt { request_id: "req-up".to_string(), record_id: "77".to_string() })
    });
    assert!(matches!(&t.sent[0], Request::Update { record_id, .. } if record_id == "77"));
    assert_eq!(t.shown, vec!["record 77 (request req-up)".to_string()]);
}
