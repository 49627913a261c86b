//! Collecting concurrent fetch results in configuration order. Each retrieval
//! is tagged with the index of its source; whenever it completes, its outcome
//! is written into the slot with that index. The slot array therefore always
//! matches the source order, whatever order the retrievals finish in — the
//! law `lemma_completion_order_irrelevant` states this for every completion
//! order.

use vstd::prelude::*;
use vstd::pervasive::VecAdditionalExecFns;
use crate::feed::{FetchOutcome, FetchOutcomeView};

verus! {

/// A fixed array of slots, one per configured source, each filled by the
/// retrieval tagged with its index.
pub struct FetchCollector {
    pub slots: Vec<Option<FetchOutcome>>,
}

/// Whether every slot has received its outcome.
pub open spec fn all_recorded(slots: Seq<Option<FetchOutcomeView>>) -> bool {
    forall|i: int| 0 <= i < slots.len() ==> slots[i] is Some
}

impl FetchCollector {
    /// One empty slot per configured source.
    pub fn new(count: usize) -> (r: Self)
        ensures
            r.slots.deep_view().len() == count,
            forall|i: int| 0 <= i < count ==> r.slots.deep_view()[i] is None,
    {
        let mut slots: Vec<Option<FetchOutcome>> = Vec::new();
        let mut i: usize = 0;
        while i < count
            invariant
                i <= count,
                slots.deep_view().len() == i,
                forall|j: int| 0 <= j < i ==> slots.deep_view()[j] is None,
            decreases count - i,
        {
            let ghost prev = slots.deep_view();
            slots.push(None);
            proof {
                assert forall|j: int| 0 <= j <= i implies slots.deep_view()[j] is None by {
                    if j < i {
                        assert(slots.deep_view()[j] == prev[j]);
                    } else {
                        assert(slots@[j] is None);
                    }
                }
            }
            i += 1;
        }
        Self { slots }
    }

    /// How many slots there are.
    pub fn len(&self) -> (r: usize)
        ensures
            r == self.slots.deep_view().len(),
    {
        self.slots.len()
    }

    /// Write the outcome of the retrieval tagged `index` into slot `index`,
    /// leaving every other slot as it was.
    pub fn record(&mut self, index: usize, outcome: FetchOutcome)
        requires
            index < old(self).slots.deep_view().len(),
        ensures
            final(self).slots.deep_view() == old(self).slots.deep_view().update(
                index as int,
                Some(outcome.deep_view()),
            ),
    {
        self.slots.set(index, Some(outcome));
        proof {
            assert(self.slots.deep_view() =~= old(self).slots.deep_view().update(
                index as int,
                Some(outcome.deep_view()),
            ));
        }
    }

    /// Whether every retrieval has completed.
    pub fn is_complete(&self) -> (r: bool)
        ensures
            r == all_recorded(self.slots.deep_view()),
    {
        let mut i: usize = 0;
        while i < self.slots.len()
            invariant
                i <= self.slots.deep_view().len(),
                forall|j: int| 0 <= j < i ==> self.slots.deep_view()[j] is Some,
        decreases self.slots.deep_view().len() - i,
        {
            if self.slots[i].is_none() {
                proof {
                    assert(self.slots.deep_view()[i as int] is None);
                }
                return false;
            }
            proof {
                assert(self.slots.deep_view()[i as int] is Some);
            }
            i += 1;
        }
        true
    }

    /// Hand the outcomes out in slot order, once every slot is filled; `None`
    /// while one is still missing. The collector is left empty.
    pub fn into_outcomes(&mut self) -> (r: Option<Vec<FetchOutcome>>)
        ensures
            final(self).slots@.len() == 0,
            (r is Some) == all_recorded(old(self).slots.deep_view()),
            r matches Some(v) ==> {
                &&& v.deep_view().len() == old(self).slots.deep_view().len()
                &&& forall|i: int|
                    0 <= i < v.deep_view().len() ==> Some(v.deep_view()[i]) == old(
                        self,
                    ).slots.deep_view()[i]
            },
    {
        let mut rest: Vec<Option<FetchOutcome>> = Vec::new();
        core::mem::swap(&mut rest, &mut self.slots);
        let ghost original = rest.deep_view();
        proof {
            assert(original == old(self).slots.deep_view());
        }
        let mut out: Vec<FetchOutcome> = Vec::new();
        let n = rest.len();
        let mut i: usize = 0;
        proof {
            assert(original.skip(0) =~= original);
        }
        while i < n
            invariant
                i <= n,
                n == original.len(),
                original == old(self).slots.deep_view(),
                self.slots@.len() == 0,
                rest@.len() == n - i,
                rest.deep_view() == original.skip(i as int),
                out.deep_view().len() == i,
                forall|j: int| 0 <= j < i ==> Some(out.deep_view()[j]) == original[j],
            decreases n - i,
        {
            let ghost before = rest.deep_view();
            let slot = rest.remove(0);
            proof {
                assert(slot.deep_view() == before[0]);
                assert(before[0] == original[i as int]);
                assert(rest.deep_view() =~= before.skip(1));
                assert(before.skip(1) =~= original.skip(i + 1));
            }
            match slot {
                Some(outcome) => {
                    let ghost prev = out.deep_view();
                    out.push(outcome);
                    proof {
                        assert forall|j: int| 0 <= j <= i implies Some(
                            #[trigger] out.deep_view()[j],
                        ) == original[j] by {
                            if j < i {
                                assert(out.deep_view()[j] == prev[j]);
                            } else {
                                assert(out.deep_view()[j] == outcome.deep_view());
                            }
                        }
                    }
                },
                None => {
                    proof {
                        assert(original[i as int] is None);
                        assert(!all_recorded(original));
                        assert(!all_recorded(old(self).slots.deep_view()));
                    }
                    return None;
                },
            }
            i += 1;
        }
        proof {
            assert(all_recorded(original));
        }
        Some(out)
    }
}

/// The slots after a run of completions: each event is the index of a
/// retrieval and its outcome, in the order the retrievals finished.
pub open spec fn record_all(
    slots: Seq<Option<FetchOutcomeView>>,
    events: Seq<(int, FetchOutcomeView)>,
) -> Seq<Option<FetchOutcomeView>>
    decreases events.len(),
{
    if events.len() == 0 {
        slots
    } else {
        record_all(slots.update(events[0].0, Some(events[0].1)), events.drop_first())
    }
}

/// Order law: however the retrievals interleave, slot `i` ends up holding the
/// outcome of the retrieval tagged `i`. For any run of completion events with
/// in-range, pairwise-distinct indices, each event's outcome sits in the slot
/// of its index afterwards, and a slot no event names keeps its old value.
pub proof fn lemma_completion_order_irrelevant(
    slots: Seq<Option<FetchOutcomeView>>,
    events: Seq<(int, FetchOutcomeView)>,
)
    requires
        forall|j: int| 0 <= j < events.len() ==> 0 <= #[trigger] events[j].0 < slots.len(),
        forall|j: int, k: int| 0 <= j < k < events.len() ==> events[j].0 != events[k].0,
    ensures
        record_all(slots, events).len() == slots.len(),
        forall|j: int|
            0 <= j < events.len() ==> record_all(slots, events)[#[trigger] events[j].0] == Some(
                events[j].1,
            ),
        forall|i: int|
            0 <= i < slots.len() && (forall|j: int|
                0 <= j < events.len() ==> #[trigger] events[j].0 != i) ==> record_all(
                slots,
                events,
            )[i] == slots[i],
    decreases events.len(),
{
    if events.len() == 0 {
    } else {
        let first = events[0];
        let updated = slots.update(first.0, Some(first.1));
        let rest = events.drop_first();
        assert(forall|j: int|
            0 <= j < rest.len() ==> #[trigger] rest[j] == events[j + 1]);
        lemma_completion_order_irrelevant(updated, rest);
        assert(record_all(slots, events) == record_all(updated, rest));
        // The first event's slot: no later event touches it.
        assert(forall|j: int| 0 <= j < rest.len() ==> #[trigger] rest[j].0 != first.0);
        assert(record_all(updated, rest)[first.0] == updated[first.0]);
        assert(updated[first.0] == Some(first.1));
        // Later events keep their own slots by the induction hypothesis.
        assert forall|j: int|
            0 <= j < events.len() implies record_all(slots, events)[#[trigger] events[j].0]
            == Some(events[j].1) by {
            if j > 0 {
                assert(events[j] == rest[j - 1]);
            }
        }
        // Untouched slots keep their old values.
        assert forall|i: int|
            0 <= i < slots.len() && (forall|j: int|
                0 <= j < events.len() ==> #[trigger] events[j].0 != i) implies record_all(
            slots,
            events,
        )[i] == slots[i] by {
            assert(events[0].0 != i);
            assert(forall|j: int| 0 <= j < rest.len() ==> #[trigger] rest[j].0 != i);
            assert(record_all(updated, rest)[i] == updated[i]);
            assert(updated[i] == slots[i]);
        }
    }
}

} // verus!
