use listing_harvester::classifier::{
    classify, classify_error_text, outcome_of_markup, ErrorKind, FetchOutcome, Recovery,
};
use listing_harvester::task::{downgrade_url, is_secure_url, Action, Event, ItemTask, Phase};

fn fetching(target: &str) -> ItemTask {
    let mut t = ItemTask::new(target.to_string());
    let a = t.on_event(Event::Checked { quarantined: false, already_done: false, cancelled: false });
    assert_eq!(a, Action::AcquireSession);
    assert_eq!(t.on_event(Event::SessionGranted), Action::Fetch);
    t
}

#[test]
fn error_text_maps_to_kinds() {
    assert_eq!(classify_error_text("net::ERR_NAME_NOT_RESOLVED at x"), ErrorKind::DnsFailure);
    assert_eq!(classify_error_text("ERR_ADDRESS_UNREACHABLE"), ErrorKind::HostUnreachable);
    assert_eq!(
        classify_error_text("no element found matching selector: no such element: Unable to locate element: body"),
        ErrorKind::ElementNotFound
    );
    assert_eq!(classify_error_text("ERR_SSL_PROTOCOL_ERROR"), ErrorKind::TlsFailure);
    assert_eq!(classify_error_text("ERR_SSL_VERSION_OR_CIPHER_MISMATCH"), ErrorKind::TlsFailure);
    assert_eq!(classify_error_text("net::ERR_TIMED_OUT"), ErrorKind::NavigationTimeout);
    assert_eq!(classify_error_text("something else"), ErrorKind::Other);
    assert_eq!(classify_error_text(""), ErrorKind::Other);
}

#[test]
fn policy_table() {
    assert_eq!(classify(FetchOutcome::Content, false), Recovery::Persist);
    assert_eq!(classify(FetchOutcome::Empty, false), Recovery::Replace);
    assert_eq!(classify(FetchOutcome::Failed(ErrorKind::DnsFailure), false), Recovery::Quarantine);
    assert_eq!(classify(FetchOutcome::Failed(ErrorKind::TlsFailure), false), Recovery::Downgrade);
    assert_eq!(classify(FetchOutcome::Failed(ErrorKind::TlsFailure), true), Recovery::Release);
    assert_eq!(classify(FetchOutcome::Failed(ErrorKind::Other), false), Recovery::Replace);
    assert_eq!(outcome_of_markup(""), FetchOutcome::Empty);
    assert_eq!(outcome_of_markup("<body></body>"), FetchOutcome::Content);
}

#[test]
fn dns_failure_quarantines_once_and_releases() {
    let mut t = fetching("https://t.test/");
    let kind = classify_error_text("unknown error: net::ERR_NAME_NOT_RESOLVED");
    let a = t.on_event(Event::Fetched(FetchOutcome::Failed(kind)));
    assert_eq!(a, Action::QuarantineAndRelease);
    assert_eq!(t.target(), "https://t.test/");
    assert_eq!(t.phase(), Phase::Done);
    // nothing further happens: no write, no second quarantine
    assert_eq!(t.on_event(Event::Persisted), Action::Ignore);
    assert_eq!(t.on_event(Event::Fetched(FetchOutcome::Failed(kind))), Action::Ignore);
}

#[test]
fn tls_failure_retries_once_over_plaintext() {
    let mut t = fetching("https://x.test/");
    let kind = classify_error_text("ERR_SSL_VERSION_OR_CIPHER_MISMATCH");
    assert_eq!(t.on_event(Event::Fetched(FetchOutcome::Failed(kind))), Action::Fetch);
    assert_eq!(t.url(), "http://x.test/");
    assert_eq!(t.on_event(Event::Fetched(FetchOutcome::Failed(kind))), Action::Release);
    assert_eq!(t.phase(), Phase::Done);
}

#[test]
fn tls_retry_that_succeeds_is_stored() {
    let mut t = fetching("https://x.test/a");
    assert_eq!(t.on_event(Event::Fetched(FetchOutcome::Failed(ErrorKind::TlsFailure))), Action::Fetch);
    assert_eq!(t.on_event(Event::Fetched(FetchOutcome::Content)), Action::Persist);
    assert_eq!(t.on_event(Event::Persisted), Action::Delay);
    assert_eq!(t.on_event(Event::DelayElapsed), Action::Release);
}

#[test]
fn tls_failure_on_plaintext_url_releases() {
    let mut t = fetching("http://x.test/");
    assert_eq!(t.on_event(Event::Fetched(FetchOutcome::Failed(ErrorKind::TlsFailure))), Action::Release);
}

#[test]
fn empty_result_replaces_without_writing() {
    let mut t = fetching("https://e.test/");
    assert_eq!(t.on_event(Event::Fetched(outcome_of_markup(""))), Action::Replace);
    assert_eq!(t.on_event(Event::Persisted), Action::Ignore);
    assert_eq!(t.phase(), Phase::Done);
}

#[test]
fn unclassified_error_replaces() {
    let mut t = fetching("https://o.test/");
    assert_eq!(t.on_event(Event::Fetched(FetchOutcome::Failed(ErrorKind::Other))), Action::Replace);
}

#[test]
fn quarantined_target_is_never_fetched() {
    let mut t = ItemTask::new("https://q.test/".to_string());
    let a = t.on_event(Event::Checked { quarantined: true, already_done: false, cancelled: false });
    assert_eq!(a, Action::Finish);
    assert_eq!(t.on_event(Event::SessionGranted), Action::Ignore);
}

#[test]
fn timed_out_session_wait_finishes() {
    let mut t = ItemTask::new("https://q.test/".to_string());
    t.on_event(Event::Checked { quarantined: false, already_done: false, cancelled: false });
    assert_eq!(t.on_event(Event::SessionTimedOut), Action::Finish);
}

#[test]
fn downgrade_rewrites_the_scheme_only() {
    assert!(is_secure_url("https://a.test/https"));
    assert!(!is_secure_url("http://a.test/"));
    assert_eq!(downgrade_url("https://a.test/https"), "http://a.test/https");
}
