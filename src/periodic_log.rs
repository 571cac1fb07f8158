//! Rate limiting of the "log periodically" callback: per tag, at most one
//! line per interval.
use vstd::prelude::*;

verus! {

/// The minimum interval between two lines of one tag, in nanoseconds.
pub const LOG_INTERVAL_NS: u64 = 1_000_000_000;

/// One tag and the timestamp its interval is counted from.
#[derive(Debug)]
pub struct TagStamp {
    pub tag: String,
    pub stamp_ns: u64,
}

/// The decision for one call at time `now` on a tag stamped `stamp`: whether
/// to emit, and the tag's next stamp (the time of the line, when one is emitted).
pub open spec fn tick(stamp: int, now: int) -> (bool, int) {
    if stamp + LOG_INTERVAL_NS < now {
        (true, now)
    } else {
        (false, stamp)
    }
}

/// How many lines a run of calls at `times` emits, from a tag stamped `stamp`.
pub open spec fn emit_count(stamp: int, times: Seq<int>) -> nat
    decreases times.len(),
{
    if times.len() == 0 {
        0
    } else {
        let (emit, next) = tick(stamp, times[0]);
        (if emit { 1nat } else { 0nat }) + emit_count(next, times.drop_first())
    }
}

/// Calls that all come no later than one interval after a stamp no earlier
/// than `lo` emit nothing.
pub proof fn lemma_quiet_within_interval(stamp: int, lo: int, times: Seq<int>)
    requires
        lo <= stamp,
        forall|i: int| 0 <= i < times.len() ==> times[i] <= lo + LOG_INTERVAL_NS,
    ensures
        emit_count(stamp, times) == 0,
    decreases times.len(),
{
    if times.len() > 0 {
        lemma_quiet_within_interval(stamp, lo, times.drop_first());
    }
}

/// Any number of calls for one tag that all fall within one interval
/// `[lo, lo + LOG_INTERVAL_NS]` emit at most one line, whatever the tag's stamp.
pub proof fn lemma_at_most_one_per_interval(stamp: int, lo: int, times: Seq<int>)
    requires
        forall|i: int| 0 <= i < times.len() ==> lo <= #[trigger] times[i] <= lo + LOG_INTERVAL_NS,
    ensures
        emit_count(stamp, times) <= 1,
    decreases times.len(),
{
    if times.len() > 0 {
        let (emit, next) = tick(stamp, times[0]);
        if emit {
            lemma_quiet_within_interval(next, lo, times.drop_first());
        } else {
            lemma_at_most_one_per_interval(stamp, lo, times.drop_first());
        }
    }
}

/// After a line was emitted at `now`, a call more than one interval later
/// emits exactly one more line, stamped with its own time.
pub proof fn lemma_emits_again_after_interval(stamp: int, now: int, later: int)
    requires
        tick(stamp, now).0,
        later > now + LOG_INTERVAL_NS,
    ensures
        tick(tick(stamp, now).1, later) == (true, later),
{
}

/// How many of a run of decisions emitted a line.
pub open spec fn count_true(emits: Seq<bool>) -> nat
    decreases emits.len(),
{
    if emits.len() == 0 {
        0
    } else {
        (if emits[0] { 1nat } else { 0nat }) + count_true(emits.drop_first())
    }
}

/// A run of `should_emit` calls for one tag that the limiter already knows:
/// `stamps[i]` is the tag's stamp before call `i`, made at `times[i]`, and
/// `emits[i]` its result, as `should_emit` states them.
pub open spec fn is_call_trace(stamps: Seq<int>, emits: Seq<bool>, times: Seq<int>) -> bool {
    &&& stamps.len() == times.len() + 1
    &&& emits.len() == times.len()
    &&& forall|i: int|
        0 <= i < times.len() ==> (#[trigger] emits[i], stamps[i + 1]) == tick(stamps[i], times[i])
}

/// A run of `should_emit` calls emits as many lines as `emit_count` gives.
pub proof fn lemma_trace_counts(stamps: Seq<int>, emits: Seq<bool>, times: Seq<int>)
    requires
        is_call_trace(stamps, emits, times),
    ensures
        count_true(emits) == emit_count(stamps[0], times),
    decreases times.len(),
{
    if times.len() > 0 {
        let (s1, e1, t1) = (stamps.drop_first(), emits.drop_first(), times.drop_first());
        assert forall|i: int| 0 <= i < t1.len() implies (#[trigger] e1[i], s1[i + 1]) == tick(
            s1[i],
            t1[i],
        ) by {
            assert(emits[i + 1] == e1[i]);
        }
        assert(emits[0] == tick(stamps[0], times[0]).0);
        lemma_trace_counts(s1, e1, t1);
    }
}

/// Any run of `should_emit` calls for one known tag, all within one interval
/// `[lo, lo + LOG_INTERVAL_NS]`, returns `true` at most once. (The first call
/// for a tag the limiter does not know returns `false` and stamps the tag.)
pub proof fn lemma_calls_within_interval_emit_at_most_once(
    stamps: Seq<int>,
    emits: Seq<bool>,
    times: Seq<int>,
    lo: int,
)
    requires
        is_call_trace(stamps, emits, times),
        forall|i: int| 0 <= i < times.len() ==> lo <= #[trigger] times[i] <= lo + LOG_INTERVAL_NS,
    ensures
        count_true(emits) <= 1,
{
    lemma_trace_counts(stamps, emits, times);
    lemma_at_most_one_per_interval(stamps[0], lo, times);
}

/// Per-tag stamps, tags unique, with the map that they stand for.
pub struct PeriodicLogLimiter {
    entries: Vec<TagStamp>,
    stamps: Ghost<Map<Seq<char>, int>>,
}

impl PeriodicLogLimiter {
    /// The tags seen so far, each with its stamp.
    pub closed spec fn view(&self) -> Map<Seq<char>, int> {
        self.stamps@
    }

    /// The entries hold unique tags and agree with the map.
    pub closed spec fn wf(&self) -> bool {
        &&& forall|i: int, j: int|
            0 <= i < j < self.entries@.len() ==> self.entries@[i].tag@ != self.entries@[j].tag@
        &&& forall|t: Seq<char>|
            self.stamps@.contains_key(t) <==> exists|i: int|
                0 <= i < self.entries@.len() && self.entries@[i].tag@ == t
        &&& forall|i: int|
            0 <= i < self.entries@.len() ==> self.stamps@[#[trigger] self.entries@[i].tag@]
                == self.entries@[i].stamp_ns as int
    }

    /// A limiter that has seen no tag.
    pub fn new() -> (r: PeriodicLogLimiter)
        ensures
            r.wf(),
            r@ == Map::<Seq<char>, int>::empty(),
    {
        PeriodicLogLimiter { entries: Vec::new(), stamps: Ghost(Map::empty()) }
    }

    /// Decides whether a call for `tag` at `now_ns` emits a line. A tag seen
    /// for the first time is stamped with `now_ns` and emits nothing; a known
    /// tag emits when more than one interval has passed since its stamp, and
    /// is then stamped with `now_ns`.
    pub fn should_emit(&mut self, tag: &String, now_ns: u64) -> (r: bool)
        requires
            old(self).wf(),
        ensures
            final(self).wf(),
            old(self)@.contains_key(tag@) ==> {
                let (emit, next) = tick(old(self)@[tag@], now_ns as int);
                r == emit && final(self)@ == old(self)@.insert(tag@, next)
            },
            !old(self)@.contains_key(tag@) ==> !r && final(self)@ == old(self)@.insert(
                tag@,
                now_ns as int,
            ),
    {
        let mut i: usize = 0;
        while i < self.entries.len()
            invariant
                self.wf(),
                *self == *old(self),
                i <= self.entries@.len(),
                forall|k: int| 0 <= k < i ==> self.entries@[k].tag@ != tag@,
            decreases self.entries@.len() - i,
        {
            if self.entries[i].tag == *tag {
                let stamp = self.entries[i].stamp_ns;
                if stamp < now_ns && now_ns - stamp > LOG_INTERVAL_NS {
                    let ghost old_entries = self.entries@;
                    self.entries.set(i, TagStamp { tag: tag.clone(), stamp_ns: now_ns });
                    self.stamps = Ghost(self.stamps@.insert(tag@, now_ns as int));
                    proof {
                        assert forall|t: Seq<char>|
                            self.stamps@.contains_key(t) <==> exists|k: int|
                                0 <= k < self.entries@.len() && self.entries@[k].tag@ == t by {
                            if self.stamps@.contains_key(t) && t != tag@ {
                                let k = choose|k: int|
                                    0 <= k < old_entries.len() && old_entries[k].tag@ == t;
                                assert(self.entries@[k].tag@ == t);
                            }
                            if exists|k: int|
                                0 <= k < self.entries@.len() && self.entries@[k].tag@ == t {
                                let k = choose|k: int|
                                    0 <= k < self.entries@.len() && self.entries@[k].tag@ == t;
                                if k != i {
                                    assert(old_entries[k].tag@ == t);
                                }
                            }
                            if t == tag@ {
                                assert(self.entries@[i as int].tag@ == t);
                            }
                        }
                        assert(self.entries@[i as int].tag@ == tag@);
                    }
                    return true;
                }
                return false;
            }
            i = i + 1;
        }
        let ghost old_entries = self.entries@;
        self.entries.push(TagStamp { tag: tag.clone(), stamp_ns: now_ns });
        self.stamps = Ghost(self.stamps@.insert(tag@, now_ns as int));
        proof {
            assert forall|t: Seq<char>|
                self.stamps@.contains_key(t) <==> exists|k: int|
                    0 <= k < self.entries@.len() && self.entries@[k].tag@ == t by {
                if self.stamps@.contains_key(t) && t != tag@ {
                    let k = choose|k: int| 0 <= k < old_entries.len() && old_entries[k].tag@ == t;
                    assert(self.entries@[k].tag@ == t);
                }
                if t == tag@ {
                    assert(self.entries@[old_entries.len() as int].tag@ == t);
                }
            }
        }
        false
    }
}

} // verus!
