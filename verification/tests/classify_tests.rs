use newswatch::classify::{classify, Action, ClassifiedError, NetworkFault, RawFailure,
    SUSPEND_SECONDS};

fn fault() -> NetworkFault {
    NetworkFault {
        is_builder: false,
        is_redirect: false,
        is_status: false,
        is_timeout: false,
        is_request: false,
        is_connect: false,
        is_body: false,
        is_decode: false,
        status: None,
        message: "boom".to_owned(),
    }
}

fn suspend_escalate() -> Action {
    Action::Suspend { seconds: SUSPEND_SECONDS, escalate: true }
}

#[test]
fn builder_fault_suspends_and_escalates() {
    let mut f = fault();
    f.is_builder = true;
    let (k, a) = classify(RawFailure::Network(f));
    assert!(matches!(k, Some(ClassifiedError::NetworkBuilder { .. })));
    assert_eq!(a, suspend_escalate());
}

#[test]
fn redirect_fault_suspends_and_escalates() {
    let mut f = fault();
    f.is_redirect = true;
    let (k, a) = classify(RawFailure::Network(f));
    assert!(matches!(k, Some(ClassifiedError::NetworkRedirect { .. })));
    assert_eq!(a, suspend_escalate());
}

#[test]
fn status_fault_suspends_and_escalates() {
    let mut f = fault();
    f.is_status = true;
    f.status = Some(503);
    let (k, a) = classify(RawFailure::Network(f));
    assert!(matches!(k, Some(ClassifiedError::NetworkStatus { .. })));
    assert_eq!(a, suspend_escalate());
}

#[test]
fn timeout_fault_suspends_without_escalating() {
    let mut f = fault();
    f.is_timeout = true;
    let (k, a) = classify(RawFailure::Network(f));
    assert!(matches!(k, Some(ClassifiedError::NetworkTimeout { .. })));
    assert_eq!(a, Action::Suspend { seconds: SUSPEND_SECONDS, escalate: false });
}

#[test]
fn request_fault_counts_as_other_network_failure() {
    let mut f = fault();
    f.is_request = true;
    let (k, a) = classify(RawFailure::Network(f));
    assert!(matches!(k, Some(ClassifiedError::NetworkOther { .. })));
    assert_eq!(a, suspend_escalate());
}

#[test]
fn connect_fault_suspends_and_escalates() {
    let mut f = fault();
    f.is_connect = true;
    let (k, a) = classify(RawFailure::Network(f));
    assert!(matches!(k, Some(ClassifiedError::NetworkConnect { .. })));
    assert_eq!(a, suspend_escalate());
}

#[test]
fn body_fault_suspends_and_escalates() {
    let mut f = fault();
    f.is_body = true;
    let (k, a) = classify(RawFailure::Network(f));
    assert!(matches!(k, Some(ClassifiedError::NetworkBody { .. })));
    assert_eq!(a, suspend_escalate());
}

#[test]
fn decode_fault_suspends_and_escalates() {
    let mut f = fault();
    f.is_decode = true;
    let (k, a) = classify(RawFailure::Network(f));
    assert!(matches!(k, Some(ClassifiedError::NetworkDecode { .. })));
    assert_eq!(a, suspend_escalate());
}

#[test]
fn unflagged_network_fault_is_other() {
    let (k, a) = classify(RawFailure::Network(fault()));
    assert!(matches!(k, Some(ClassifiedError::NetworkOther { .. })));
    assert_eq!(a, suspend_escalate());
}

#[test]
fn flag_order_prefers_earlier_conditions() {
    let mut f = fault();
    f.is_timeout = true;
    f.is_connect = true;
    let (k, a) = classify(RawFailure::Network(f));
    assert!(matches!(k, Some(ClassifiedError::NetworkTimeout { .. })));
    assert_eq!(a, Action::Suspend { seconds: SUSPEND_SECONDS, escalate: false });
}

#[test]
fn missing_item_identifier_persists_artifact_and_suspends() {
    let (k, a) = classify(RawFailure::NoItemIdentifier {
        source_name: "main".to_owned(),
        document: "<html></html>".to_owned(),
    });
    assert!(matches!(k, Some(ClassifiedError::NoItemIdentifierFound { .. })));
    assert_eq!(a, Action::PersistArtifactAndSuspend { seconds: SUSPEND_SECONDS });
}

#[test]
fn missing_selector_escalates_and_continues() {
    let (k, a) = classify(RawFailure::SelectorMissing { selector: "p".to_owned() });
    assert!(matches!(k, Some(ClassifiedError::ExtractionSelectorMissing { .. })));
    assert_eq!(a, Action::EscalateContinue);
}

#[test]
fn empty_extraction_suspends_and_escalates() {
    let (k, a) = classify(RawFailure::EmptyResult { source_name: "main".to_owned() });
    assert!(matches!(k, Some(ClassifiedError::ExtractionEmptyResult { .. })));
    assert_eq!(a, suspend_escalate());
}

#[test]
fn month_parse_failure_suspends_and_escalates() {
    let (k, a) = classify(RawFailure::MonthParse { message: "Smarch".to_owned() });
    assert!(matches!(k, Some(ClassifiedError::MonthParseFailure { .. })));
    assert_eq!(a, suspend_escalate());
}

#[test]
fn suspension_notice_is_silent() {
    let (k, a) = classify(RawFailure::SuspensionNotice);
    assert!(k.is_none());
    assert_eq!(a, Action::Silent);
}

#[test]
fn notification_transport_failure_escalates_and_continues() {
    let (k, a) = classify(RawFailure::NotificationTransport { message: "down".to_owned() });
    assert!(matches!(k, Some(ClassifiedError::NotificationTransportFailure { .. })));
    assert_eq!(a, Action::EscalateContinue);
}

#[test]
fn deserialization_failure_terminates() {
    let (k, a) = classify(RawFailure::Deserialization { message: "bad json".to_owned() });
    assert!(matches!(k, Some(ClassifiedError::DeserializationFailure { .. })));
    assert_eq!(a, Action::EscalateTerminate);
}

#[test]
fn unknown_failure_terminates() {
    let (k, a) = classify(RawFailure::Unknown { message: "???".to_owned() });
    assert!(matches!(k, Some(ClassifiedError::Unclassified { .. })));
    assert_eq!(a, Action::EscalateTerminate);
}

#[test]
fn classification_is_reproducible() {
    let make = || RawFailure::MonthParse { message: "Smarch".to_owned() };
    let (k1, a1) = classify(make());
    let (k2, a2) = classify(make());
    assert_eq!(a1, a2);
    match (k1, k2) {
        (
            Some(ClassifiedError::MonthParseFailure { message: m1 }),
            Some(ClassifiedError::MonthParseFailure { message: m2 }),
        ) => assert_eq!(m1, m2),
        _ => panic!("kinds differ"),
    }
}
