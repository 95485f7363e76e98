//! The closed failure taxonomy and the escalation decision tree: every raw
//! collaborator failure is normalized to at most one classified kind and
//! exactly one action, by a pure table.

use vstd::prelude::*;

verus! {

/// Seconds a transient fault suspends a source: thirty minutes.
pub const SUSPEND_SECONDS: u64 = 1800;

/// Network-level failure flags as the fetch collaborator reports them.
/// Several may be set at once; classification tests them in a fixed order.
#[derive(Debug)]
pub struct NetworkFault {
    pub is_builder: bool,
    pub is_redirect: bool,
    pub is_status: bool,
    pub is_timeout: bool,
    pub is_request: bool,
    pub is_connect: bool,
    pub is_body: bool,
    pub is_decode: bool,
    pub status: Option<u16>,
    pub message: String,
}

/// A raw failure surfaced by a collaborator, before classification.
#[derive(Debug)]
pub enum RawFailure {
    /// The fetch itself failed; the flags say how.
    Network(NetworkFault),
    /// Extraction found a post but no item identifier on it; carries the raw
    /// document for the diagnostic artifact.
    NoItemIdentifier { source_name: String, document: String },
    /// A selector the extractor assumed present did not match.
    SelectorMissing { selector: String },
    /// Extraction unexpectedly produced zero items.
    EmptyResult { source_name: String },
    /// A month or date token could not be parsed.
    MonthParse { message: String },
    /// A suspension notice already acted on upstream.
    SuspensionNotice,
    /// The notification transport failed to deliver an alert.
    NotificationTransport { message: String },
    /// A collaborator handed back undecodable structured data.
    Deserialization { message: String },
    /// Anything that matches no known condition.
    Unknown { message: String },
}

/// The closed taxonomy of classified failures, each carrying enough context
/// to diagnose post hoc.
#[derive(Debug)]
pub enum ClassifiedError {
    NetworkBuilder { message: String },
    NetworkRedirect { message: String },
    NetworkStatus { message: String },
    NetworkTimeout { message: String },
    NetworkConnect { message: String },
    NetworkBody { message: String },
    NetworkDecode { message: String },
    NetworkOther { message: String },
    NoItemIdentifierFound { source_name: String, document: String },
    ExtractionSelectorMissing { selector: String },
    ExtractionEmptyResult { source_name: String },
    MonthParseFailure { message: String },
    NotificationTransportFailure { message: String },
    DeserializationFailure { message: String },
    Unclassified { message: String },
}

/// What the scheduler must do about a classified failure.
#[derive(Clone, Copy, Debug, PartialEq, Eq, Structural)]
pub enum Action {
    /// Suspend the source for `seconds`, escalating or not.
    Suspend { seconds: u64, escalate: bool },
    /// Persist the offending document as a diagnostic artifact, then suspend
    /// for `seconds` and escalate.
    PersistArtifactAndSuspend { seconds: u64 },
    /// Emit an escalation; the source stays active.
    EscalateContinue,
    /// Emit a final escalation, then terminate the process.
    EscalateTerminate,
    /// Already handled upstream: no action at all.
    Silent,
}

/// The network rows of the decision table, flags tested in order; a timeout
/// suspends without escalating, a plain request fault and anything
/// unrecognized count as other network failures.
pub open spec fn spec_classify_network(f: NetworkFault) -> (Option<ClassifiedError>, Action) {
    if f.is_builder {
        (
            Some(ClassifiedError::NetworkBuilder { message: f.message }),
            Action::Suspend { seconds: SUSPEND_SECONDS, escalate: true },
        )
    } else if f.is_redirect {
        (
            Some(ClassifiedError::NetworkRedirect { message: f.message }),
            Action::Suspend { seconds: SUSPEND_SECONDS, escalate: true },
        )
    } else if f.is_status {
        (
            Some(ClassifiedError::NetworkStatus { message: f.message }),
            Action::Suspend { seconds: SUSPEND_SECONDS, escalate: true },
        )
    } else if f.is_timeout {
        (
            Some(ClassifiedError::NetworkTimeout { message: f.message }),
            Action::Suspend { seconds: SUSPEND_SECONDS, escalate: false },
        )
    } else if f.is_request {
        (
            Some(ClassifiedError::NetworkOther { message: f.message }),
            Action::Suspend { seconds: SUSPEND_SECONDS, escalate: true },
        )
    } else if f.is_connect {
        (
            Some(ClassifiedError::NetworkConnect { message: f.message }),
            Action::Suspend { seconds: SUSPEND_SECONDS, escalate: true },
        )
    } else if f.is_body {
        (
            Some(ClassifiedError::NetworkBody { message: f.message }),
            Action::Suspend { seconds: SUSPEND_SECONDS, escalate: true },
        )
    } else if f.is_decode {
        (
            Some(ClassifiedError::NetworkDecode { message: f.message }),
            Action::Suspend { seconds: SUSPEND_SECONDS, escalate: true },
        )
    } else {
        (
            Some(ClassifiedError::NetworkOther { message: f.message }),
            Action::Suspend { seconds: SUSPEND_SECONDS, escalate: true },
        )
    }
}

/// The whole decision table: the classified kind (none for a suspension
/// notice, which is silent) and the action for every raw failure.
pub open spec fn spec_classify(e: RawFailure) -> (Option<ClassifiedError>, Action) {
    match e {
        RawFailure::Network(f) => spec_classify_network(f),
        RawFailure::NoItemIdentifier { source_name, document } => (
            Some(ClassifiedError::NoItemIdentifierFound { source_name, document }),
            Action::PersistArtifactAndSuspend { seconds: SUSPEND_SECONDS },
        ),
        RawFailure::SelectorMissing { selector } => (
            Some(ClassifiedError::ExtractionSelectorMissing { selector }),
            Action::EscalateContinue,
        ),
        RawFailure::EmptyResult { source_name } => (
            Some(ClassifiedError::ExtractionEmptyResult { source_name }),
            Action::Suspend { seconds: SUSPEND_SECONDS, escalate: true },
        ),
        RawFailure::MonthParse { message } => (
            Some(ClassifiedError::MonthParseFailure { message }),
            Action::Suspend { seconds: SUSPEND_SECONDS, escalate: true },
        ),
        RawFailure::SuspensionNotice => (None, Action::Silent),
        RawFailure::NotificationTransport { message } => (
            Some(ClassifiedError::NotificationTransportFailure { message }),
            Action::EscalateContinue,
        ),
        RawFailure::Deserialization { message } => (
            Some(ClassifiedError::DeserializationFailure { message }),
            Action::EscalateTerminate,
        ),
        RawFailure::Unknown { message } => (
            Some(ClassifiedError::Unclassified { message }),
            Action::EscalateTerminate,
        ),
    }
}

/// Normalizes a raw failure: a pure function of its input, so identical raw
/// failures always yield the identical (kind, action) pair.
pub fn classify(e: RawFailure) -> (r: (Option<ClassifiedError>, Action))
    ensures
        r == spec_classify(e),
{
    match e {
        RawFailure::Network(f) => {
            if f.is_builder {
                (
                    Some(ClassifiedError::NetworkBuilder { message: f.message }),
                    Action::Suspend { seconds: SUSPEND_SECONDS, escalate: true },
                )
            } else if f.is_redirect {
                (
                    Some(ClassifiedError::NetworkRedirect { message: f.message }),
                    Action::Suspend { seconds: SUSPEND_SECONDS, escalate: true },
                )
            } else if f.is_status {
                (
                    Some(ClassifiedError::NetworkStatus { message: f.message }),
                    Action::Suspend { seconds: SUSPEND_SECONDS, escalate: true },
                )
            } else if f.is_timeout {
                (
                    Some(ClassifiedError::NetworkTimeout { message: f.message }),
                    Action::Suspend { seconds: SUSPEND_SECONDS, escalate: false },
                )
            } else if f.is_request {
                (
                    Some(ClassifiedError::NetworkOther { message: f.message }),
                    Action::Suspend { seconds: SUSPEND_SECONDS, escalate: true },
                )
            } else if f.is_connect {
                (
                    Some(ClassifiedError::NetworkConnect { message: f.message }),
                    Action::Suspend { seconds: SUSPEND_SECONDS, escalate: true },
                )
            } else if f.is_body {
                (
                    Some(ClassifiedError::NetworkBody { message: f.message }),
                    Action::Suspend { seconds: SUSPEND_SECONDS, escalate: true },
                )
            } else if f.is_decode {
                (
                    Some(ClassifiedError::NetworkDecode { message: f.message }),
                    Action::Suspend { seconds: SUSPEND_SECONDS, escalate: true },
                )
            } else {
                (
                    Some(ClassifiedError::NetworkOther { message: f.message }),
                    Action::Suspend { seconds: SUSPEND_SECONDS, escalate: true },
                )
            }
        },
        RawFailure::NoItemIdentifier { source_name, document } => (
            Some(ClassifiedError::NoItemIdentifierFound { source_name, document }),
            Action::PersistArtifactAndSuspend { seconds: SUSPEND_SECONDS },
        ),
        RawFailure::SelectorMissing { selector } => (
            Some(ClassifiedError::ExtractionSelectorMissing { selector }),
            Action::EscalateContinue,
        ),
        RawFailure::EmptyResult { source_name } => (
            Some(ClassifiedError::ExtractionEmptyResult { source_name }),
            Action::Suspend { seconds: SUSPEND_SECONDS, escalate: true },
        ),
        RawFailure::MonthParse { message } => (
            Some(ClassifiedError::MonthParseFailure { message }),
            Action::Suspend { seconds: SUSPEND_SECONDS, escalate: true },
        ),
        RawFailure::SuspensionNotice => (None, Action::Silent),
        RawFailure::NotificationTransport { message } => (
            Some(ClassifiedError::NotificationTransportFailure { message }),
            Action::EscalateContinue,
        ),
        RawFailure::Deserialization { message } => (
            Some(ClassifiedError::DeserializationFailure { message }),
            Action::EscalateTerminate,
        ),
        RawFailure::Unknown { message } => (
            Some(ClassifiedError::Unclassified { message }),
            Action::EscalateTerminate,
        ),
    }
}

} // verus!
