//! The fetch scheduler: the per-source decision cycle over the timeout
//! table, dedup ledger, statistics and failure classification. The engine
//! decides; the surrounding process performs the fetches, notifications,
//! sleeps and persistence it is told to, and feeds the outcomes back in.

use vstd::prelude::*;
use crate::classify::{classify, spec_classify, Action, ClassifiedError, RawFailure,
    SUSPEND_SECONDS};
use crate::dedup::{spec_mark, spec_seen, DedupLedger};
use crate::embed::ScrapeType;
use crate::statistics::{bumped, Incr, Statistics};
use crate::text::{push_decimal, spec_decimal};
use crate::timeout::{spec_timed_out, Timeout};

verus! {

/// One polled content origin. Immutable after load.
#[derive(Debug)]
pub struct Source {
    pub name: String,
    pub url: String,
    pub scrape_type: ScrapeType,
}

/// A source name with `/` and `:` replaced by `_`, fit for a file name.
pub open spec fn spec_sanitized_name(s: Seq<char>) -> Seq<char> {
    s.map_values(|c: char| if c == '/' || c == ':' { '_' } else { c })
}

/// The diagnostic artifact file name for a failing source at a given time:
/// the sanitized source name, an underscore, the timestamp, and `.html`.
pub open spec fn spec_artifact_name(name: Seq<char>, now: u64) -> Seq<char> {
    spec_sanitized_name(name) + seq!['_'] + spec_decimal(now) + seq!['.', 'h', 't', 'm', 'l']
}

/// Renders the diagnostic artifact file name for `name` at `now`.
pub fn artifact_file_name(name: &str, now: u64) -> (r: String)
    ensures
        r@ == spec_artifact_name(name@, now),
{
    let n = name.unicode_len();
    let mut out = String::new();
    let mut i: usize = 0;
    while i < n
        invariant
            i <= n,
            n == name@.len(),
            out@ == spec_sanitized_name(name@.take(i as int)),
        decreases n - i,
    {
        let c = name.get_char(i);
        let ghost prefix = out@;
        if c == '/' || c == ':' {
            out.push('_');
        } else {
            out.push(c);
        }
        proof {
            assert(out@ =~= spec_sanitized_name(name@.take(i + 1 as int)));
        }
        i += 1;
    }
    proof {
        assert(name@.take(n as int) =~= name@);
    }
    out.push('_');
    push_decimal(&mut out, now);
    out.push('.');
    out.push('h');
    out.push('t');
    out.push('m');
    out.push('l');
    proof {
        assert(out@ =~= spec_artifact_name(name@, now));
    }
    out
}

/// Whether an action suspends the source.
pub open spec fn spec_suspends(a: Action) -> bool {
    a is Suspend || a is PersistArtifactAndSuspend
}

/// Whether an action carries an escalation to emit.
pub open spec fn spec_escalates(a: Action) -> bool {
    match a {
        Action::Suspend { escalate, .. } => escalate,
        Action::PersistArtifactAndSuspend { .. } => true,
        Action::EscalateContinue => true,
        Action::EscalateTerminate => true,
        Action::Silent => false,
    }
}

/// What the surrounding process must still do after a failure was recorded:
/// emit the escalation and write the artifact, where asked.
#[derive(Debug)]
pub struct FailureReport {
    /// The classified failure, for the escalation text; none for an
    /// already-handled suspension notice.
    pub classified: Option<ClassifiedError>,
    /// The decided action.
    pub action: Action,
    /// Whether an escalation must be emitted.
    pub escalate: bool,
    /// The file name for the diagnostic artifact, when one must be written.
    pub artifact_name: Option<String>,
}

/// The scheduler state: the source registry, a cursor over it, and the
/// engine's owned components.
pub struct Engine {
    pub sources: Vec<Source>,
    pub next: usize,
    pub timeouts: Timeout,
    pub stats: Statistics,
    pub ledger: DedupLedger,
    pub daemon: bool,
    pub terminated: bool,
}

impl Engine {
    /// Engine validity: the cursor is in range and the timeout table is
    /// well formed.
    pub open spec fn wf(&self) -> bool {
        &&& self.timeouts.wf()
        &&& (self.sources@.len() > 0 ==> self.next < self.sources@.len())
        &&& (self.sources@.len() == 0 ==> self.next == 0)
    }

    /// The name of the source under the cursor.
    pub open spec fn current_name(&self) -> Seq<char> {
        self.sources@[self.next as int].name@
    }

    /// A fresh engine over the loaded source registry: nothing suspended,
    /// nothing seen, all counters zero, not terminated.
    pub fn new(sources: Vec<Source>, daemon: bool, now: u64) -> (r: Engine)
        ensures
            r.wf(),
            r.sources == sources,
            r.next == 0,
            r.timeouts@ == Map::<Seq<char>, u64>::empty(),
            r.stats.fetch_attempts == 0,
            r.stats.new_items == 0,
            r.stats.errors == 0,
            r.stats.window_start == now,
            r.ledger@ == Seq::<(Seq<char>, Seq<char>)>::empty(),
            r.daemon == daemon,
            !r.terminated,
    {
        Engine {
            sources,
            next: 0,
            timeouts: Timeout::new(),
            stats: Statistics::new(now),
            ledger: DedupLedger::new(),
            daemon,
            terminated: false,
        }
    }

    /// Decides the cycle for the source under the cursor: a source still
    /// suspended is skipped with no fetch attempt; otherwise the
    /// fetch-attempt counter is bumped and the fetch goes ahead.
    pub fn begin_source(&mut self, now: u64) -> (r: bool)
        requires
            old(self).wf(),
            old(self).sources@.len() > 0,
            !old(self).terminated,
        ensures
            final(self).wf(),
            r == !spec_timed_out(old(self).timeouts@, old(self).current_name(), now),
            final(self).stats.fetch_attempts == if r {
                bumped(old(self).stats.fetch_attempts)
            } else {
                old(self).stats.fetch_attempts
            },
            final(self).stats.new_items == old(self).stats.new_items,
            final(self).stats.errors == old(self).stats.errors,
            final(self).stats.window_start == old(self).stats.window_start,
            final(self).timeouts == old(self).timeouts,
            final(self).ledger == old(self).ledger,
            final(self).sources == old(self).sources,
            final(self).next == old(self).next,
            final(self).daemon == old(self).daemon,
            final(self).terminated == old(self).terminated,
    {
        let timed = self.timeouts.is_timed_out(self.sources[self.next].name.as_str(), now);
        if !timed {
            self.stats.increment(Incr::FetchCounter);
            true
        } else {
            false
        }
    }

    /// Routes one successfully extracted item through the dedup gate: a
    /// genuinely new (source, url) pair is marked, bumps the new-item
    /// counter and must be notified; a pair already seen is dropped.
    pub fn record_item(&mut self, url: &str) -> (r: bool)
        requires
            old(self).wf(),
            old(self).sources@.len() > 0,
        ensures
            final(self).wf(),
            r == !spec_seen(old(self).ledger@, old(self).current_name(), url@),
            final(self).ledger@ == spec_mark(old(self).ledger@, old(self).current_name(), url@).0,
            final(self).stats.new_items == if r {
                bumped(old(self).stats.new_items)
            } else {
                old(self).stats.new_items
            },
            final(self).stats.fetch_attempts == old(self).stats.fetch_attempts,
            final(self).stats.errors == old(self).stats.errors,
            final(self).stats.window_start == old(self).stats.window_start,
            final(self).timeouts == old(self).timeouts,
            final(self).sources == old(self).sources,
            final(self).next == old(self).next,
            final(self).daemon == old(self).daemon,
            final(self).terminated == old(self).terminated,
    {
        let name = self.sources[self.next].name.clone();
        let r = self.ledger.mark_and_check(name.as_str(), url);
        if r {
            self.stats.increment(Incr::NewNews);
        }
        r
    }

    /// The failure path: bumps the error counter, classifies the raw
    /// failure, records the decided suspension or termination, and hands
    /// back what the process must still do.
    pub fn record_failure(&mut self, e: RawFailure, now: u64) -> (r: FailureReport)
        requires
            old(self).wf(),
            old(self).sources@.len() > 0,
            now <= u64::MAX - SUSPEND_SECONDS,
        ensures
            final(self).wf(),
            r.classified == spec_classify(e).0,
            r.action == spec_classify(e).1,
            r.escalate == spec_escalates(spec_classify(e).1),
            match r.artifact_name {
                Some(f) => spec_classify(e).1 is PersistArtifactAndSuspend && f@
                    == spec_artifact_name(old(self).current_name(), now),
                None => !(spec_classify(e).1 is PersistArtifactAndSuspend),
            },
            final(self).timeouts@ == if spec_suspends(spec_classify(e).1) {
                old(self).timeouts@.insert(old(self).current_name(), (now + SUSPEND_SECONDS) as u64)
            } else {
                old(self).timeouts@
            },
            final(self).terminated == (old(self).terminated || spec_classify(e).1
                is EscalateTerminate),
            final(self).stats.errors == bumped(old(self).stats.errors),
            final(self).stats.fetch_attempts == old(self).stats.fetch_attempts,
            final(self).stats.new_items == old(self).stats.new_items,
            final(self).stats.window_start == old(self).stats.window_start,
            final(self).ledger == old(self).ledger,
            final(self).sources == old(self).sources,
            final(self).next == old(self).next,
            final(self).daemon == old(self).daemon,
    {
        self.stats.increment(Incr::Errors);
        let (classified, action) = classify(e);
        let mut artifact_name: Option<String> = None;
        let escalate: bool;
        match action {
            Action::Suspend { seconds: _, escalate: esc } => {
                let name = self.sources[self.next].name.clone();
                self.timeouts.time_out(name, now + SUSPEND_SECONDS);
                escalate = esc;
            },
            Action::PersistArtifactAndSuspend { seconds: _ } => {
                artifact_name = Some(
                    artifact_file_name(self.sources[self.next].name.as_str(), now),
                );
                let name = self.sources[self.next].name.clone();
                self.timeouts.time_out(name, now + SUSPEND_SECONDS);
                escalate = true;
            },
            Action::EscalateContinue => {
                escalate = true;
            },
            Action::EscalateTerminate => {
                self.terminated = true;
                escalate = true;
            },
            Action::Silent => {
                escalate = false;
            },
        }
        FailureReport { classified, action, escalate, artifact_name }
    }

    /// Moves the cursor past the source just handled. Completing a full
    /// pass answers true, and in single-pass mode ends the run there.
    pub fn advance(&mut self) -> (r: bool)
        requires
            old(self).wf(),
            old(self).sources@.len() > 0,
        ensures
            final(self).wf(),
            r == (old(self).next == old(self).sources@.len() - 1),
            final(self).next == if r {
                0
            } else {
                old(self).next + 1
            },
            final(self).terminated == (old(self).terminated || (r && !old(self).daemon)),
            final(self).stats == old(self).stats,
            final(self).timeouts == old(self).timeouts,
            final(self).ledger == old(self).ledger,
            final(self).sources == old(self).sources,
            final(self).daemon == old(self).daemon,
    {
        let n = self.sources.len();
        if self.next + 1 == n {
            self.next = 0;
            if !self.daemon {
                self.terminated = true;
            }
            true
        } else {
            self.next = self.next + 1;
            false
        }
    }

    /// The periodic stats cycle: atomically reads and resets the rolling
    /// counters; the report goes to the notifier, and is reset here whatever
    /// becomes of it there.
    pub fn flush_stats(&mut self, now: u64) -> (r: Statistics)
        requires
            old(self).wf(),
        ensures
            final(self).wf(),
            r == old(self).stats,
            final(self).stats.fetch_attempts == 0,
            final(self).stats.new_items == 0,
            final(self).stats.errors == 0,
            final(self).stats.window_start == now,
            final(self).timeouts == old(self).timeouts,
            final(self).ledger == old(self).ledger,
            final(self).sources == old(self).sources,
            final(self).next == old(self).next,
            final(self).daemon == old(self).daemon,
            final(self).terminated == old(self).terminated,
    {
        self.stats.flush(now)
    }
}

} // verus!
