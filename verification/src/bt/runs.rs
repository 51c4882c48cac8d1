//! Runs of the link state machine: what holds over any sequence of steps.

use crate::bt::laws::{lemma_forward_only, lemma_notice_marks_entry};
use crate::bt::link::{
    initial, next, notice_of, notice_rank, rank, state_of, Action, ConnectionState, Event, Link,
    Phase, ADAPTER_BACKOFF_MS,
};
use vstd::prelude::*;

verus! {

/// The machine after the events of `events`, taken in order.
pub open spec fn run(link: Link, events: Seq<Event>) -> Link
    decreases events.len(),
{
    if events.len() == 0 {
        link
    } else {
        next(run(link, events.drop_last()), events.last()).0
    }
}

/// The action with which the machine answers the event at position `i`.
pub open spec fn answer(link: Link, events: Seq<Event>, i: int) -> Action {
    next(run(link, events.subrange(0, i)), events[i]).1
}

/// The events of a link on which no adapter ever shows: each listing comes
/// back empty, and each pause ends.
pub open spec fn no_adapter_shows(events: Seq<Event>) -> bool {
    forall|i: int|
        0 <= i < events.len() ==> #[trigger] events[i] == if i % 2 == 0 {
            Event::Adapters(0)
        } else {
            Event::Elapsed
        }
}

/// Over a run the link never falls back: the state after more events is
/// the same as after fewer, or a later one.
pub proof fn lemma_run_forward_only(link: Link, events: Seq<Event>, i: int)
    requires
        0 <= i <= events.len(),
    ensures
        rank(state_of(run(link, events.subrange(0, i)).phase)) <= rank(
            state_of(run(link, events).phase),
        ),
    decreases events.len(),
{
    if i == events.len() {
        assert(events.subrange(0, i) =~= events);
    } else {
        let shorter = events.drop_last();
        assert(shorter.subrange(0, i) =~= events.subrange(0, i));
        lemma_run_forward_only(link, shorter, i);
        lemma_forward_only(run(link, shorter), events.last());
    }
}

/// Over a run the notifications go out in their order, each at most once:
/// of two that go out, the later one ranks strictly higher.
pub proof fn lemma_notices_strictly_increase(link: Link, events: Seq<Event>, i: int, j: int)
    requires
        0 <= i < j < events.len(),
        notice_of(answer(link, events, i)) is Some,
        notice_of(answer(link, events, j)) is Some,
    ensures
        notice_rank(notice_of(answer(link, events, i))->Some_0) < notice_rank(
            notice_of(answer(link, events, j))->Some_0,
        ),
{
    let before_i = run(link, events.subrange(0, i));
    let before_j = run(link, events.subrange(0, j));
    let upto_j = events.subrange(0, j);
    lemma_notice_marks_entry(before_i, events[i]);
    lemma_notice_marks_entry(before_j, events[j]);
    // The state that step `i` enters is the state after `i + 1` events.
    assert(upto_j.subrange(0, i + 1).drop_last() =~= events.subrange(0, i));
    assert(upto_j.subrange(0, i + 1).last() == events[i]);
    lemma_run_forward_only(link, upto_j, i + 1);
}

/// While no adapter shows, the link stays in its first state for as long as
/// it is driven, pausing and asking again, and never gives up.
pub proof fn lemma_no_adapter_keeps_searching(events: Seq<Event>)
    requires
        no_adapter_shows(events),
    ensures
        run(initial().0, events).phase == if events.len() % 2 == 0 {
            Phase::PollingAdapters
        } else {
            Phase::AdapterBackoff
        },
        state_of(run(initial().0, events).phase) == ConnectionState::SearchingAdapter,
        run(initial().0, events).target is None,
        forall|i: int|
            0 <= i < events.len() ==> #[trigger] answer(initial().0, events, i) == if i % 2 == 0 {
                Action::Wait(ADAPTER_BACKOFF_MS)
            } else {
                Action::ListAdapters
            },
    decreases events.len(),
{
    if events.len() > 0 {
        let shorter = events.drop_last();
        assert(no_adapter_shows(shorter)) by {
            assert forall|i: int| 0 <= i < shorter.len() implies #[trigger] shorter[i] == if i % 2
                == 0 {
                Event::Adapters(0)
            } else {
                Event::Elapsed
            } by {
                assert(shorter[i] == events[i]);
            }
        }
        lemma_no_adapter_keeps_searching(shorter);
        let last = events.len() - 1;
        assert(events.last() == events[last]);
        assert forall|i: int| 0 <= i < events.len() implies #[trigger] answer(
            initial().0,
            events,
            i,
        ) == if i % 2 == 0 {
            Action::Wait(ADAPTER_BACKOFF_MS)
        } else {
            Action::ListAdapters
        } by {
            if i < last {
                assert(shorter.subrange(0, i) =~= events.subrange(0, i));
                assert(answer(initial().0, shorter, i) == answer(initial().0, events, i));
            } else {
                assert(events.subrange(0, i) =~= shorter);
            }
        }
    }
}

} // verus!
