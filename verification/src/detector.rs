//! Change detection: the state machine of the event loop.
//!
//! The loop polls the client's current-location reference every tick and
//! publishes exactly when the reference differs from the last one seen.
//! The tracker starts idle, holding the bus's default root path, which the
//! service reports while it has no location yet; an idle-default reading
//! never publishes. The baseline advances the moment a publication is due,
//! before any fetching or writing, so a failed publication is never retried
//! for the same reference: only a later, different reference triggers a
//! fresh attempt.

use vstd::prelude::*;
use vstd::string::StringExecFns;

verus! {

/// The reference the service reports while it has no location: the bus's
/// default root path.
pub open spec fn spec_no_location() -> Seq<char> {
    "/"@
}

/// Whether observing `cur` with baseline `last` must publish: only a real
/// reference that differs from the baseline does.
pub open spec fn should_publish(last: Seq<char>, cur: Seq<char>) -> bool {
    cur != last && cur != spec_no_location()
}

/// The baseline after observing `cur` with baseline `last`: it advances
/// exactly when a publication is due.
pub open spec fn next_last(last: Seq<char>, cur: Seq<char>) -> Seq<char> {
    if should_publish(last, cur) {
        cur
    } else {
        last
    }
}

/// The change detector: holds the last-known location reference, the only
/// state the event loop mutates.
pub struct Tracker {
    last: String,
}

impl View for Tracker {
    type V = Seq<char>;

    closed spec fn view(&self) -> Seq<char> {
        self.last@
    }
}

impl Tracker {
    /// A tracker in the idle state: no location observed yet.
    pub fn new() -> (t: Tracker)
        ensures
            t@ == spec_no_location(),
    {
        Tracker { last: String::from_str("/") }
    }

    /// One tick of the loop: compares the currently reported reference with
    /// the last-known one. True means a new location was detected and must
    /// be published; the baseline then advances to it unconditionally, so
    /// that a failure to fetch or persist is not retried on the same
    /// reference.
    pub fn observe(&mut self, current: &String) -> (publish: bool)
        ensures
            publish == should_publish(old(self)@, current@),
            final(self)@ == next_last(old(self)@, current@),
    {
        let root = String::from_str("/");
        if *current == root {
            return false;
        }
        if *current == self.last {
            return false;
        }
        self.last = current.clone();
        true
    }
}

/// The baseline reference after the loop has observed `obs` from the idle
/// state.
pub open spec fn last_after(obs: Seq<Seq<char>>) -> Seq<char>
    decreases obs.len(),
{
    if obs.len() == 0 {
        spec_no_location()
    } else {
        next_last(last_after(obs.drop_last()), obs.last())
    }
}

/// The references the loop publishes for the observation sequence `obs`,
/// in detection order.
pub open spec fn publications(obs: Seq<Seq<char>>) -> Seq<Seq<char>>
    decreases obs.len(),
{
    if obs.len() == 0 {
        Seq::empty()
    } else if should_publish(last_after(obs.drop_last()), obs.last()) {
        publications(obs.drop_last()).push(obs.last())
    } else {
        publications(obs.drop_last())
    }
}

/// `s` with every run of adjacent equal elements collapsed to its first
/// occurrence.
pub open spec fn collapse_runs(s: Seq<Seq<char>>) -> Seq<Seq<char>>
    decreases s.len(),
{
    if s.len() == 0 {
        Seq::empty()
    } else if s.len() == 1 {
        s
    } else if s.last() == s[s.len() - 2] {
        collapse_runs(s.drop_last())
    } else {
        collapse_runs(s.drop_last()).push(s.last())
    }
}

/// A real location reference, as opposed to the idle default.
pub open spec fn is_real_ref(r: Seq<char>) -> bool {
    r != spec_no_location()
}

/// Law: one observation extends the model by one step: the baseline moves
/// by `next_last`, and the publication list grows exactly when a
/// publication is due — precisely what one `observe` call reports.
pub proof fn lemma_observe_step(obs: Seq<Seq<char>>, cur: Seq<char>)
    ensures
        last_after(obs.push(cur)) == next_last(last_after(obs), cur),
        publications(obs.push(cur)) == if should_publish(last_after(obs), cur) {
            publications(obs).push(cur)
        } else {
            publications(obs)
        },
{
    assert(obs.push(cur).drop_last() =~= obs);
    assert(obs.push(cur).last() == cur);
}

/// The baseline is the last real reference that survived filtering, or the
/// idle default while none has been seen.
proof fn lemma_last_after_filter(obs: Seq<Seq<char>>)
    ensures
        ({
            let seen = obs.filter(|r: Seq<char>| is_real_ref(r));
            last_after(obs) == if seen.len() == 0 {
                spec_no_location()
            } else {
                seen.last()
            }
        }),
    decreases obs.len(),
{
    reveal(Seq::filter);
    if obs.len() > 0 {
        let shorter = obs.drop_last();
        let cur = obs.last();
        lemma_last_after_filter(shorter);
        Seq::lemma_filter_push(shorter, cur, |r: Seq<char>| is_real_ref(r));
        assert(shorter.push(cur) =~= obs);
    }
}

/// Law: for any observation sequence, the published references are exactly
/// the distinct runs of the real references observed — each distinct
/// location is published once, at its first occurrence; repeats never
/// republish, and idle-default readings never publish.
pub proof fn lemma_publications_are_distinct_runs(obs: Seq<Seq<char>>)
    ensures
        publications(obs) == collapse_runs(obs.filter(|r: Seq<char>| is_real_ref(r))),
    decreases obs.len(),
{
    reveal(Seq::filter);
    let pred = |r: Seq<char>| is_real_ref(r);
    if obs.len() == 0 {
    } else {
        let shorter = obs.drop_last();
        let cur = obs.last();
        let seen = shorter.filter(pred);
        lemma_publications_are_distinct_runs(shorter);
        lemma_last_after_filter(shorter);
        Seq::lemma_filter_push(shorter, cur, pred);
        assert(shorter.push(cur) =~= obs);
        if pred(cur) {
            assert(obs.filter(pred) == seen.push(cur));
            if should_publish(last_after(shorter), cur) {
                if seen.len() == 0 {
                    assert(seen.push(cur) =~= seq![cur]);
                    assert(collapse_runs(seq![cur]) =~= Seq::<Seq<char>>::empty().push(cur));
                    assert(collapse_runs(seen) =~= Seq::<Seq<char>>::empty());
                } else {
                    assert(cur != seen.last());
                    assert(seen.push(cur).drop_last() =~= seen);
                    assert(seen.push(cur)[seen.push(cur).len() - 2] == seen.last());
                }
            } else {
                assert(cur == last_after(shorter));
                assert(seen.len() > 0);
                assert(cur == seen.last());
                assert(seen.push(cur).drop_last() =~= seen);
                assert(seen.push(cur)[seen.push(cur).len() - 2] == seen.last());
                assert(seen.push(cur).len() >= 2);
                assert(collapse_runs(seen.push(cur)) == collapse_runs(seen));
            }
        } else {
            assert(obs.filter(pred) == seen);
            assert(cur == spec_no_location());
            assert(!should_publish(last_after(shorter), cur));
        }
    }
}

/// Law: on the first iteration, an idle-default reading publishes nothing.
pub proof fn lemma_initial_idle_suppressed(obs: Seq<Seq<char>>)
    requires
        obs.len() == 1,
        obs[0] == spec_no_location(),
    ensures
        publications(obs) == Seq::<Seq<char>>::empty(),
{
    assert(obs.last() == obs[0]);
    assert(!should_publish(last_after(obs.drop_last()), obs.last()));
    assert(obs.drop_last().len() == 0);
    assert(publications(obs.drop_last()) == Seq::<Seq<char>>::empty());
}

/// The document at the output path after the loop has observed `obs` with
/// publication outcomes `ok`: `ok[i]` tells whether the snapshot fetch and
/// the write both succeeded on tick `i`; it is only consulted on ticks that
/// decided to publish. `None` means no write ever succeeded.
pub open spec fn file_after(obs: Seq<Seq<char>>, ok: Seq<bool>) -> Option<Seq<char>>
    recommends
        ok.len() == obs.len(),
    decreases obs.len(),
{
    if obs.len() == 0 {
        Option::None
    } else if should_publish(last_after(obs.drop_last()), obs.last()) && ok.last() {
        Option::Some(obs.last())
    } else {
        file_after(obs.drop_last(), ok.drop_last())
    }
}

/// The references whose publication was decided and whose fetch and write
/// succeeded, in detection order.
pub open spec fn successes(obs: Seq<Seq<char>>, ok: Seq<bool>) -> Seq<Seq<char>>
    recommends
        ok.len() == obs.len(),
    decreases obs.len(),
{
    if obs.len() == 0 {
        Seq::empty()
    } else if should_publish(last_after(obs.drop_last()), obs.last()) && ok.last() {
        successes(obs.drop_last(), ok.drop_last()).push(obs.last())
    } else {
        successes(obs.drop_last(), ok.drop_last())
    }
}

/// Law: recoverable failures are isolated. The publication decisions never
/// consult the outcomes, and the file always reflects the most recent
/// successful publication: a failure for one reference neither blocks a
/// later differing reference nor resurfaces once one is published.
pub proof fn lemma_file_is_last_success(obs: Seq<Seq<char>>, ok: Seq<bool>)
    requires
        ok.len() == obs.len(),
    ensures
        file_after(obs, ok) == if successes(obs, ok).len() == 0 {
            Option::<Seq<char>>::None
        } else {
            Option::Some(successes(obs, ok).last())
        },
    decreases obs.len(),
{
    if obs.len() > 0 {
        lemma_file_is_last_success(obs.drop_last(), ok.drop_last());
    }
}

/// Law: when every outcome succeeds, exactly the decided publications land,
/// so the file ends at the last decided publication.
pub proof fn lemma_all_ok_lands_all(obs: Seq<Seq<char>>, ok: Seq<bool>)
    requires
        ok.len() == obs.len(),
        forall|i: int| 0 <= i < ok.len() ==> ok[i],
    ensures
        successes(obs, ok) == publications(obs),
    decreases obs.len(),
{
    if obs.len() > 0 {
        lemma_all_ok_lands_all(obs.drop_last(), ok.drop_last());
    }
}

} // verus!
