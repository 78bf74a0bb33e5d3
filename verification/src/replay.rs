//! Whole runs: a sequence of events from the start of a run, and what the
//! run made of it.

use crate::config::{Config, ConfigView};
use crate::run::{
    begin, initial_step, lemma_event_view_well_formed, step, transition, Action, ActionView, Event,
    EventView, State,
};
use vstd::prelude::*;

verus! {

/// Every event of `events` is well formed.
pub open spec fn well_formed(events: Seq<EventView>) -> bool {
    forall|k: int| 0 <= k < events.len() ==> (#[trigger] events[k]).well_formed()
}

/// The state that `event` leads to from `state`; `state` itself where
/// `event` is not what `state` waits for.
pub open spec fn advance(config: ConfigView, state: State, event: EventView) -> State {
    match transition(config, state, event) {
        Some(step) => step.state,
        None => state,
    }
}

/// The state of a run that stood in `start` and was then told `events`, one
/// after the other.
pub open spec fn run_from(config: ConfigView, start: State, events: Seq<EventView>) -> State
    decreases events.len(),
{
    if events.len() == 0 {
        start
    } else {
        advance(config, run_from(config, start, events.drop_last()), events.last())
    }
}

/// The state of a run that was told `events` since it began.
pub open spec fn state_after(config: ConfigView, events: Seq<EventView>) -> State {
    run_from(config, initial_step().state, events)
}

/// The requests that a run made while, standing in `start`, it was told
/// `events`: one for every event that it acted on, in order.
pub open spec fn requests_from(config: ConfigView, start: State, events: Seq<EventView>) -> Seq<
    ActionView,
>
    decreases events.len(),
{
    if events.len() == 0 {
        Seq::empty()
    } else {
        let earlier = events.drop_last();
        match transition(config, run_from(config, start, earlier), events.last()) {
            Some(step) => requests_from(config, start, earlier).push(step.action),
            None => requests_from(config, start, earlier),
        }
    }
}

/// The work that a run has asked for by the time it was told `events`: the
/// first request, then one more for every event that the run acted on.
pub open spec fn actions_after(config: ConfigView, events: Seq<EventView>) -> Seq<ActionView> {
    seq![initial_step().action] + requests_from(config, initial_step().state, events)
}

/// What a run made of a sequence of events.
#[derive(Clone, Debug, PartialEq, Eq)]
pub struct Trace {
    /// Where the run stands after the last event.
    pub state: State,
    /// Every request the run made, in order.
    pub actions: Vec<Action>,
}

/// Runs the state machine from its start over `events`, as a host would that
/// reported exactly these outcomes in this order, and records what the run
/// asked for. An event that the run does not wait for is passed over.
pub fn replay(config: &Config, events: Vec<Event>) -> (trace: Trace)
    ensures
        well_formed(events.deep_view()),
        trace.state == state_after(config@, events.deep_view()),
        trace.actions.deep_view() == actions_after(config@, events.deep_view()),
{
    let ghost told = events.deep_view();
    assert forall|k: int| 0 <= k < told.len() implies (#[trigger] told[k]).well_formed() by {
        lemma_event_view_well_formed(events@[k]);
    }
    let first = begin();
    let mut state = first.state;
    let mut actions: Vec<Action> = Vec::new();
    actions.push(first.action);
    for event in it: events.into_iter()
        invariant
            it.seq().len() == told.len(),
            forall|k: int| 0 <= k < told.len() ==> (#[trigger] it.seq()[k])@ == told[k],
            state == state_after(config@, told.take(it.index())),
            actions.deep_view() == actions_after(config@, told.take(it.index())),
    {
        let ghost k = it.index();
        let ghost before = actions.deep_view();
        let ghost requests = requests_from(config@, initial_step().state, told.take(k));
        assert(told.take(k + 1).drop_last() =~= told.take(k));
        match step(config, state, event) {
            Some(next) => {
                state = next.state;
                actions.push(next.action);
                assert(before.push(next.action@) =~= seq![initial_step().action] + requests.push(
                    next.action@,
                ));
            },
            None => {},
        }
    }
    assert(told.take(told.len() as int) =~= told);
    Trace { state, actions }
}

} // verus!
