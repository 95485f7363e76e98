//! Fetch-orchestration engine for a polled news feed: per-source suspension
//! bookkeeping, failure classification and escalation decisions, rolling
//! operational statistics, a dedup ledger, and the scheduling state machine
//! that ties them together. Markup extraction, notification delivery and
//! durable persistence are external collaborators reached only through the
//! narrow interfaces modelled here.

pub mod classify;
pub mod dedup;
pub mod embed;
pub mod engine;
pub mod sanitize;
pub mod scrape_meta;
pub mod statistics;
pub mod text;
pub mod timeout;
