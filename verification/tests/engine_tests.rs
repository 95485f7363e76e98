use newswatch::classify::{Action, ClassifiedError, NetworkFault, RawFailure, SUSPEND_SECONDS};
use newswatch::embed::ScrapeType;
use newswatch::engine::{artifact_file_name, Engine, Source};

fn one_source(name: &str, scrape_type: ScrapeType) -> Vec<Source> {
    vec![Source {
        name: name.to_owned(),
        url: format!("https://example.test/{name}"),
        scrape_type,
    }]
}

fn connect_fault() -> RawFailure {
    RawFailure::Network(NetworkFault {
        is_builder: false,
        is_redirect: false,
        is_status: false,
        is_timeout: false,
        is_request: false,
        is_connect: true,
        is_body: false,
        is_decode: false,
        status: None,
        message: "connection refused".to_owned(),
    })
}

#[test]
fn new_items_are_notified_exactly_once_across_fetches() {
    let mut e = Engine::new(one_source("A", ScrapeType::Main), true, 0);

    // First fetch: two unseen items.
    assert!(e.begin_source(10));
    assert!(e.record_item("u1"));
    assert!(e.record_item("u2"));
    assert_eq!(e.stats.new_items, 2);
    assert!(e.advance());
    assert!(!e.terminated);

    // Second fetch: one seen, one new.
    assert!(e.begin_source(70));
    assert!(!e.record_item("u1"));
    assert!(e.record_item("u3"));
    assert_eq!(e.stats.new_items, 3);
    assert_eq!(e.stats.fetch_attempts, 2);
    assert_eq!(e.ledger.latest("A").as_deref(), Some("u3"));
}

#[test]
fn connection_refused_suspends_source_for_thirty_minutes() {
    let mut e = Engine::new(one_source("B", ScrapeType::Forum), true, 0);
    let now: u64 = 100;

    assert!(e.begin_source(now));
    let report = e.record_failure(connect_fault(), now);
    assert!(matches!(report.classified, Some(ClassifiedError::NetworkConnect { .. })));
    assert_eq!(report.action, Action::Suspend { seconds: SUSPEND_SECONDS, escalate: true });
    assert!(report.escalate);
    assert!(report.artifact_name.is_none());
    assert_eq!(e.stats.errors, 1);
    assert!(!e.terminated);
    e.advance();

    // Still suspended: the next cycles skip B without a fetch attempt.
    assert!(!e.begin_source(now + 1));
    assert!(!e.begin_source(now + 1799));
    assert_eq!(e.stats.fetch_attempts, 1);

    // Expired: B is fetched again.
    assert!(e.begin_source(now + 1800));
    assert_eq!(e.stats.fetch_attempts, 2);
}

#[test]
fn timeout_fault_suspends_without_escalation() {
    let mut e = Engine::new(one_source("B", ScrapeType::Forum), true, 0);
    e.begin_source(0);
    let report = e.record_failure(
        RawFailure::Network(NetworkFault {
            is_builder: false,
            is_redirect: false,
            is_status: false,
            is_timeout: true,
            is_request: false,
            is_connect: false,
            is_body: false,
            is_decode: false,
            status: None,
            message: "timed out".to_owned(),
        }),
        0,
    );
    assert!(!report.escalate);
    assert!(!e.terminated);
    assert!(!e.begin_source(1));
}

#[test]
fn unclassified_failure_terminates_the_run() {
    let mut e = Engine::new(one_source("A", ScrapeType::Main), true, 0);
    assert!(e.begin_source(5));
    let report = e.record_failure(RawFailure::Unknown { message: "novel".to_owned() }, 5);
    assert_eq!(report.action, Action::EscalateTerminate);
    assert!(report.escalate);
    assert!(matches!(report.classified, Some(ClassifiedError::Unclassified { .. })));
    assert!(e.terminated);
    assert_eq!(e.stats.errors, 1);
}

#[test]
fn missing_identifier_yields_artifact_name_and_suspension() {
    let mut e = Engine::new(one_source("a/b:c", ScrapeType::Main), true, 0);
    e.begin_source(77);
    let report = e.record_failure(
        RawFailure::NoItemIdentifier {
            source_name: "a/b:c".to_owned(),
            document: "<html></html>".to_owned(),
        },
        77,
    );
    assert_eq!(report.action, Action::PersistArtifactAndSuspend { seconds: SUSPEND_SECONDS });
    assert_eq!(report.artifact_name.as_deref(), Some("a_b_c_77.html"));
    assert!(!e.begin_source(78));
}

#[test]
fn suspension_notice_is_recorded_silently() {
    let mut e = Engine::new(one_source("A", ScrapeType::Main), true, 0);
    e.begin_source(0);
    let report = e.record_failure(RawFailure::SuspensionNotice, 0);
    assert!(report.classified.is_none());
    assert_eq!(report.action, Action::Silent);
    assert!(!report.escalate);
    assert!(report.artifact_name.is_none());
    assert!(!e.terminated);
    assert!(e.begin_source(1));
}

#[test]
fn single_pass_mode_stops_after_one_pass() {
    let sources = vec![
        Source { name: "A".to_owned(), url: "u1".to_owned(), scrape_type: ScrapeType::Main },
        Source { name: "B".to_owned(), url: "u2".to_owned(), scrape_type: ScrapeType::Forum },
    ];
    let mut e = Engine::new(sources, false, 0);
    assert!(e.begin_source(0));
    assert!(!e.advance());
    assert!(!e.terminated);
    assert!(e.begin_source(1));
    assert!(e.advance());
    assert!(e.terminated);
}

#[test]
fn stats_flush_through_engine_resets_window() {
    let mut e = Engine::new(one_source("A", ScrapeType::Main), true, 3);
    e.begin_source(4);
    e.record_item("u1");
    let report = e.flush_stats(500);
    assert_eq!(report.fetch_attempts, 1);
    assert_eq!(report.new_items, 1);
    assert_eq!(report.window_start, 3);
    assert_eq!(e.stats.fetch_attempts, 0);
    assert_eq!(e.stats.window_start, 500);
}

#[test]
fn artifact_names_render_sanitized_name_and_timestamp() {
    assert_eq!(artifact_file_name("main", 0), "main_0.html");
    assert_eq!(artifact_file_name("https://a/b", 1234567890), "https___a_b_1234567890.html");
}
