//! Dedup ledger: which (source, url) pairs have already been reported, in
//! mark order. The scheduler consults this ledger so that a genuinely new
//! item is notified exactly once; the durable copy behind it is kept in step
//! by the persistence collaborator outside the engine.

use vstd::prelude::*;
use crate::text::str_eq;

verus! {

/// One seen pair: a source name and an item url marked under it.
pub struct SeenPair {
    pub source: String,
    pub url: String,
}

/// Whether the pair (s, u) is already on the ledger.
pub open spec fn spec_seen(pairs: Seq<(Seq<char>, Seq<char>)>, s: Seq<char>, u: Seq<char>) -> bool {
    exists|i: int| 0 <= i < pairs.len() && pairs[i] == (s, u)
}

/// The functional model of one `mark_and_check` call: the ledger afterwards
/// and the answer. A pair never seen is appended and answered true; a pair
/// already seen leaves the ledger unchanged and is answered false.
pub open spec fn spec_mark(pairs: Seq<(Seq<char>, Seq<char>)>, s: Seq<char>, u: Seq<char>) -> (
    Seq<(Seq<char>, Seq<char>)>,
    bool,
) {
    if spec_seen(pairs, s, u) {
        (pairs, false)
    } else {
        (pairs.push((s, u)), true)
    }
}

/// The url most recently marked for `s`, if any.
pub open spec fn spec_latest(pairs: Seq<(Seq<char>, Seq<char>)>, s: Seq<char>) -> Option<Seq<char>>
    decreases pairs.len(),
{
    if pairs.len() == 0 {
        None
    } else if pairs.last().0 == s {
        Some(pairs.last().1)
    } else {
        spec_latest(pairs.drop_last(), s)
    }
}

/// The in-memory dedup ledger, mutated only through `mark_and_check`.
pub struct DedupLedger {
    pairs: Vec<SeenPair>,
}

impl View for DedupLedger {
    type V = Seq<(Seq<char>, Seq<char>)>;

    closed spec fn view(&self) -> Seq<(Seq<char>, Seq<char>)> {
        Seq::new(self.pairs@.len(), |i: int| (self.pairs@[i].source@, self.pairs@[i].url@))
    }
}

impl DedupLedger {
    /// An empty ledger: nothing has been seen.
    pub fn new() -> (r: DedupLedger)
        ensures
            r@ == Seq::<(Seq<char>, Seq<char>)>::empty(),
    {
        let r = DedupLedger { pairs: Vec::new() };
        proof {
            assert(r@ =~= Seq::<(Seq<char>, Seq<char>)>::empty());
        }
        r
    }

    /// True iff (source, url) was never marked before; in that case the pair
    /// is marked now. False leaves the ledger unchanged.
    pub fn mark_and_check(&mut self, source: &str, url: &str) -> (r: bool)
        ensures
            r == !spec_seen(old(self)@, source@, url@),
            final(self)@ == spec_mark(old(self)@, source@, url@).0,
    {
        let n = self.pairs.len();
        let mut i: usize = 0;
        while i < n
            invariant
                i <= n,
                n == self.pairs.len(),
                self == old(self),
                forall|k: int| 0 <= k < i ==> #[trigger] self@[k] != (source@, url@),
            decreases n - i,
        {
            if str_eq(self.pairs[i].source.as_str(), source) && str_eq(
                self.pairs[i].url.as_str(),
                url,
            ) {
                proof {
                    assert(self@[i as int] == (source@, url@));
                }
                return false;
            }
            i += 1;
        }
        proof {
            assert(!spec_seen(self@, source@, url@));
        }
        let ghost before = self@;
        self.pairs.push(SeenPair { source: source.to_owned(), url: url.to_owned() });
        proof {
            assert(self@ =~= before.push((source@, url@)));
        }
        true
    }

    /// The url most recently marked for `source`, if any; the read-only query
    /// the status interface uses.
    pub fn latest(&self, source: &str) -> (r: Option<String>)
        ensures
            match r {
                Some(u) => spec_latest(self@, source@) == Some(u@),
                None => spec_latest(self@, source@) is None,
            },
    {
        let mut i: usize = self.pairs.len();
        proof {
            assert(self@.take(self.pairs@.len() as int) =~= self@);
        }
        while i > 0
            invariant
                i <= self.pairs.len(),
                spec_latest(self@, source@) == spec_latest(self@.take(i as int), source@),
            decreases i,
        {
            i -= 1;
            let ghost prefix = self@.take(i + 1 as int);
            proof {
                assert(prefix.last() == self@[i as int]);
                assert(prefix.drop_last() =~= self@.take(i as int));
            }
            if str_eq(self.pairs[i].source.as_str(), source) {
                return Some(self.pairs[i].url.clone());
            }
        }
        None
    }
}

/// A pair is reported new exactly once: the first `mark_and_check` of (s, u)
/// answers true iff the pair was never on the ledger, the pair is on the
/// ledger afterwards, and a repeated call answers false.
pub proof fn lemma_mark_and_check_once(pairs: Seq<(Seq<char>, Seq<char>)>, s: Seq<char>, u: Seq<char>)
    ensures
        spec_mark(pairs, s, u).1 == !spec_seen(pairs, s, u),
        spec_seen(spec_mark(pairs, s, u).0, s, u),
        spec_mark(spec_mark(pairs, s, u).0, s, u).1 == false,
{
    if !spec_seen(pairs, s, u) {
        let np = pairs.push((s, u));
        assert(np[pairs.len() as int] == (s, u));
    }
}

/// Marks of other pairs never un-see a pair: once (s, u) is on the ledger it
/// stays there through any later mark, so every subsequent call with (s, u)
/// still answers false.
pub proof fn lemma_seen_persists(
    pairs: Seq<(Seq<char>, Seq<char>)>,
    s: Seq<char>,
    u: Seq<char>,
    s2: Seq<char>,
    u2: Seq<char>,
)
    requires
        spec_seen(pairs, s, u),
    ensures
        spec_seen(spec_mark(pairs, s2, u2).0, s, u),
{
    let i = choose|i: int| 0 <= i < pairs.len() && pairs[i] == (s, u);
    assert(spec_mark(pairs, s2, u2).0[i] == (s, u));
}

} // verus!
