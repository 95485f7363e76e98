//! Per-source suspension table: answers whether a source is currently
//! suspended and records new suspensions, last write winning.

use vstd::prelude::*;
use crate::text::str_eq;

verus! {

/// One suspension: a source and the absolute time at which it may resume.
pub struct TimeoutEntry {
    pub name: String,
    pub resume_at: u64,
}

/// The table contents as a map from source name to resume time; a later
/// entry for the same name overwrites an earlier one.
pub open spec fn entries_map(s: Seq<TimeoutEntry>) -> Map<Seq<char>, u64>
    decreases s.len(),
{
    if s.len() == 0 {
        Map::empty()
    } else {
        entries_map(s.drop_last()).insert(s.last().name@, s.last().resume_at)
    }
}

/// Entry names are pairwise distinct: at most one live entry per source.
pub open spec fn entries_wf(s: Seq<TimeoutEntry>) -> bool {
    forall|i: int, j: int| 0 <= i < j < s.len() ==> s[i].name@ != s[j].name@
}

/// A source is suspended when the table holds a resume time still ahead of
/// the probe time; expiry is computed on read, never by deletion.
pub open spec fn spec_timed_out(m: Map<Seq<char>, u64>, name: Seq<char>, now: u64) -> bool {
    m.contains_key(name) && m[name] > now
}

proof fn lemma_entries_map_absent(s: Seq<TimeoutEntry>, n: Seq<char>)
    requires
        forall|k: int| 0 <= k < s.len() ==> s[k].name@ != n,
    ensures
        !entries_map(s).contains_key(n),
    decreases s.len(),
{
    if s.len() > 0 {
        lemma_entries_map_absent(s.drop_last(), n);
    }
}

proof fn lemma_entries_map_found(s: Seq<TimeoutEntry>, i: int)
    requires
        entries_wf(s),
        0 <= i < s.len(),
    ensures
        entries_map(s).contains_key(s[i].name@),
        entries_map(s)[s[i].name@] == s[i].resume_at,
    decreases s.len(),
{
    if i == s.len() - 1 {
    } else {
        lemma_entries_map_found(s.drop_last(), i);
    }
}

/// Per-source suspension state, mutated only through `time_out` and read
/// only through `is_timed_out`.
pub struct Timeout {
    entries: Vec<TimeoutEntry>,
}

impl View for Timeout {
    type V = Map<Seq<char>, u64>;

    closed spec fn view(&self) -> Map<Seq<char>, u64> {
        entries_map(self.entries@)
    }
}

impl Timeout {
    /// The structural invariant: one live entry per source.
    pub closed spec fn wf(&self) -> bool {
        entries_wf(self.entries@)
    }

    /// An empty table: no source is suspended.
    pub fn new() -> (r: Timeout)
        ensures
            r.wf(),
            r@ == Map::<Seq<char>, u64>::empty(),
    {
        Timeout { entries: Vec::new() }
    }

    /// True iff an entry exists for `name` and its resume time is still
    /// strictly ahead of `now`.
    pub fn is_timed_out(&self, name: &str, now: u64) -> (r: bool)
        requires
            self.wf(),
        ensures
            r == spec_timed_out(self@, name@, now),
    {
        let n = self.entries.len();
        let mut i: usize = 0;
        while i < n
            invariant
                i <= n,
                n == self.entries.len(),
                self.wf(),
                forall|k: int| 0 <= k < i ==> self.entries@[k].name@ != name@,
            decreases n - i,
        {
            if str_eq(self.entries[i].name.as_str(), name) {
                proof {
                    lemma_entries_map_found(self.entries@, i as int);
                }
                return self.entries[i].resume_at > now;
            }
            i += 1;
        }
        proof {
            lemma_entries_map_absent(self.entries@, name@);
        }
        false
    }

    /// Inserts or overwrites the entry for `source`: last write wins, no
    /// stacking. Callers compute the resume time themselves.
    pub fn time_out(&mut self, source: String, resume_at: u64)
        requires
            old(self).wf(),
        ensures
            final(self).wf(),
            final(self)@ == old(self)@.insert(source@, resume_at),
    {
        let n = self.entries.len();
        let mut kept: Vec<TimeoutEntry> = Vec::new();
        let mut i: usize = 0;
        while i < n
            invariant
                i <= n,
                n == self.entries.len(),
                self == old(self),
                self.wf(),
                entries_wf(kept@),
                forall|k: int| 0 <= k < kept@.len() ==> kept@[k].name@ != source@,
                forall|k: int| #![trigger kept@[k]]
                    0 <= k < kept@.len() ==> exists|j: int|
                        0 <= j < i && kept@[k].name@ == #[trigger] self.entries@[j].name@,
                entries_map(kept@) == entries_map(self.entries@.take(i as int)).remove(source@),
            decreases n - i,
        {
            let ghost prefix = self.entries@.take(i as int);
            let e = &self.entries[i];
            if !str_eq(e.name.as_str(), source.as_str()) {
                let ghost kept0 = kept@;
                kept.push(TimeoutEntry { name: e.name.clone(), resume_at: e.resume_at });
                proof {
                    assert(kept@.drop_last() =~= kept0);
                    assert(entries_map(kept@) == entries_map(kept0).insert(
                        e.name@,
                        e.resume_at,
                    ));
                    assert(self.entries@.take(i + 1 as int).drop_last() =~= prefix);
                    assert(entries_map(self.entries@.take(i + 1 as int)) == entries_map(
                        prefix,
                    ).insert(e.name@, e.resume_at));
                    assert(entries_map(kept0).insert(e.name@, e.resume_at) =~= entries_map(
                        prefix,
                    ).insert(e.name@, e.resume_at).remove(source@));
                }
            } else {
                proof {
                    assert(self.entries@.take(i + 1 as int).drop_last() =~= prefix);
                    assert(entries_map(self.entries@.take(i + 1 as int)) == entries_map(
                        prefix,
                    ).insert(e.name@, e.resume_at));
                    assert(entries_map(kept@) =~= entries_map(prefix).insert(
                        e.name@,
                        e.resume_at,
                    ).remove(source@));
                }
            }
            i += 1;
        }
        proof {
            assert(self.entries@.take(n as int) =~= self.entries@);
        }
        let ghost kept0 = kept@;
        let ghost m_all = entries_map(self.entries@);
        let ghost source_view = source@;
        kept.push(TimeoutEntry { name: source, resume_at });
        proof {
            assert(kept@.drop_last() =~= kept0);
            assert(entries_map(kept@) == entries_map(kept0).insert(source_view, resume_at));
            assert(entries_map(kept0).insert(source_view, resume_at) =~= m_all.insert(
                source_view,
                resume_at,
            ));
        }
        self.entries = kept;
    }
}

/// After `time_out(s, t + 1800)` at time `t`, the source reads as timed out
/// for every probe time before `t + 1800` and as free for every probe time at
/// or past `t + 1800`.
pub proof fn lemma_time_out_window(m: Map<Seq<char>, u64>, s: Seq<char>, t: u64, probe: u64)
    requires
        t <= u64::MAX - 1800,
    ensures
        probe < t + 1800 ==> spec_timed_out(m.insert(s, (t + 1800) as u64), s, probe),
        probe >= t + 1800 ==> !spec_timed_out(m.insert(s, (t + 1800) as u64), s, probe),
{
}

/// Two suspensions of the same source overwrite rather than stack: only the
/// latest resume time governs the timed-out answer.
pub proof fn lemma_time_out_overwrites(
    m: Map<Seq<char>, u64>,
    s: Seq<char>,
    first: u64,
    second: u64,
    probe: u64,
)
    ensures
        m.insert(s, first).insert(s, second) == m.insert(s, second),
        spec_timed_out(m.insert(s, first).insert(s, second), s, probe) == (second > probe),
{
    assert(m.insert(s, first).insert(s, second) =~= m.insert(s, second));
}

} // verus!
