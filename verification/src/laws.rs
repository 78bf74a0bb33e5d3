//! What holds of every run, whatever the host reports.
//!
//! The statements are over `state_after` and `actions_after`, the state and
//! the requests of a run that was told a given sequence of events; `replay`
//! computes exactly these. No statement asks that the events make sense:
//! they hold of a host that answers out of turn as of one that does not.

use crate::config::ConfigView;
use crate::error::RunError;
use crate::replay::{actions_after, run_from, state_after, well_formed};
use crate::resolver::{is_first_position, lemma_resolution_is_first_position};
use crate::run::{initial_step, transition, ActionView, Awaiting, EventView, State};
use vstd::prelude::*;

verus! {

/// The run acted on the event at position `at` of `events`: it was the
/// outcome that the run waited for.
pub open spec fn acted_on(config: ConfigView, events: Seq<EventView>, at: int) -> bool {
    &&& 0 <= at < events.len()
    &&& transition(config, state_after(config, events.take(at)), events[at]) is Some
}

/// The request that the run made when it acted on the event at position `at`.
pub open spec fn request_at(config: ConfigView, events: Seq<EventView>, at: int) -> ActionView {
    transition(config, state_after(config, events.take(at)), events[at])->0.action
}

/// At position `at` the run, connected to `peripheral`, was told that
/// service discovery succeeded.
pub open spec fn discovered_at(
    config: ConfigView,
    events: Seq<EventView>,
    at: int,
    peripheral: usize,
) -> bool {
    &&& 0 <= at < events.len()
    &&& events[at] is ServicesDiscovered
    &&& state_after(config, events.take(at)) == State::Connected { peripheral }
}

/// At position `at` the run, after service discovery on `peripheral`, was
/// given a list of characteristics in which `characteristic` is the first
/// position that carries the target identifier.
pub open spec fn resolved_at(
    config: ConfigView,
    events: Seq<EventView>,
    at: int,
    peripheral: usize,
    characteristic: usize,
) -> bool {
    &&& 0 <= at < events.len()
    &&& state_after(config, events.take(at)) == State::ServicesResolved { peripheral }
    &&& events[at] matches EventView::CharacteristicsListed { uuids } && is_first_position(
        uuids,
        config.target_uuid,
        characteristic as int,
    )
}

/// How many of `actions` are reads.
pub open spec fn reads_requested(actions: Seq<ActionView>) -> nat
    decreases actions.len(),
{
    if actions.len() == 0 {
        0
    } else {
        reads_requested(actions.drop_last()) + if actions.last() is Read {
            1nat
        } else {
            0nat
        }
    }
}

/// The values that `actions` hand to the operator, in order.
pub open spec fn emitted(actions: Seq<ActionView>) -> Seq<Seq<u8>>
    decreases actions.len(),
{
    if actions.len() == 0 {
        Seq::empty()
    } else {
        match actions.last() {
            ActionView::Emit { value, .. } => emitted(actions.drop_last()).push(value),
            _ => emitted(actions.drop_last()),
        }
    }
}

/// How many of `actions` open a connection.
pub open spec fn connections_requested(actions: Seq<ActionView>) -> nat
    decreases actions.len(),
{
    if actions.len() == 0 {
        0
    } else {
        connections_requested(actions.drop_last()) + if actions.last() is Connect {
            1nat
        } else {
            0nat
        }
    }
}

/// The counts of requests that go with each state of a run.
spec fn accounted(config: ConfigView, state: State, actions: Seq<ActionView>) -> bool {
    let reads = reads_requested(actions);
    let values = emitted(actions).len();
    let connections = connections_requested(actions);
    match state {
        State::Idle | State::AdapterAcquired { .. } | State::Scanning { .. } => reads == 0
            && values == 0 && connections == 0,
        State::PeripheralFound { .. } | State::Connected { .. } | State::ServicesResolved {
            ..
        } => reads == 0 && values == 0 && connections == 1,
        State::CharacteristicResolved { .. } => reads == 1 && values == 0 && 0 < config.read_count
            && connections == 1,
        State::Polling { completed, awaiting: Awaiting::Read, .. } => values == completed && reads
            == completed + 1 && completed < config.read_count && connections == 1,
        State::Polling { completed, awaiting: Awaiting::Delay, .. } => values == completed && reads
            == completed && 0 < completed <= config.read_count && connections == 1,
        State::Done => reads == config.read_count && values == config.read_count && connections
            == 1,
        State::Failed { reason: RunError::Read } => reads == values + 1 && reads
            <= config.read_count && connections == 1,
        State::Failed { .. } => reads == 0 && values == 0 && connections <= 1,
    }
}

/// What one more request adds to the counts.
pub proof fn lemma_counts_push(actions: Seq<ActionView>, action: ActionView)
    ensures
        reads_requested(actions.push(action)) == reads_requested(actions) + if action is Read {
            1nat
        } else {
            0nat
        },
        emitted(actions.push(action)) == match action {
            ActionView::Emit { value, .. } => emitted(actions).push(value),
            _ => emitted(actions),
        },
        connections_requested(actions.push(action)) == connections_requested(actions)
            + if action is Connect {
            1nat
        } else {
            0nat
        },
{
    assert(actions.push(action).drop_last() =~= actions);
}

proof fn lemma_accounted(config: ConfigView, events: Seq<EventView>)
    ensures
        accounted(config, state_after(config, events), actions_after(config, events)),
    decreases events.len(),
{
    if events.len() == 0 {
        let none = Seq::<ActionView>::empty();
        lemma_counts_push(none, initial_step().action);
    } else {
        let earlier = events.drop_last();
        lemma_accounted(config, earlier);
        match transition(config, state_after(config, earlier), events.last()) {
            Some(step) => {
                lemma_counts_push(actions_after(config, earlier), step.action);
            },
            None => {},
        }
    }
}

/// Every state that a run reaches is well formed.
pub proof fn lemma_reachable_states_well_formed(config: ConfigView, events: Seq<EventView>)
    ensures
        state_after(config, events).well_formed(config),
    decreases events.len(),
{
    if events.len() > 0 {
        lemma_reachable_states_well_formed(config, events.drop_last());
    }
}

/// `Done` and `Failed` are final: no sequence of events leads out of them.
pub proof fn lemma_terminal_states_are_final(
    config: ConfigView,
    state: State,
    events: Seq<EventView>,
)
    requires
        state.terminal(),
    ensures
        run_from(config, state, events) == state,
    decreases events.len(),
{
    if events.len() > 0 {
        lemma_terminal_states_are_final(config, state, events.drop_last());
    }
}

/// A run never goes back: from one event to the next it stays at its stage,
/// moves on to a later one, or fails.
pub proof fn lemma_stages_in_order(
    config: ConfigView,
    events: Seq<EventView>,
    earlier: int,
    later: int,
)
    requires
        0 <= earlier <= later <= events.len(),
    ensures
        state_after(config, events.take(earlier)).stage() <= state_after(
            config,
            events.take(later),
        ).stage(),
    decreases later - earlier,
{
    if earlier < later {
        lemma_stages_in_order(config, events, earlier, later - 1);
        assert(events.take(later).drop_last() =~= events.take(later - 1));
    }
}

/// The reads of a run.
///
/// A run never asks for more reads than are configured, and it asks for the
/// next read only once the last one has returned its value. A run that is
/// `Done` has asked for exactly `read_count` reads and has handed on a value
/// for each. A run that failed on a read has asked for exactly one read more
/// than it handed on values: the reads up to and including the first that
/// failed, and none after it. A run that failed for another reason has asked
/// for no read at all.
pub proof fn lemma_read_attempts(config: ConfigView, events: Seq<EventView>)
    ensures
        ({
            let state = state_after(config, events);
            let reads = reads_requested(actions_after(config, events));
            let values = emitted(actions_after(config, events)).len();
            &&& reads <= config.read_count
            &&& values <= reads <= values + 1
            &&& state is Done ==> reads == config.read_count && values == config.read_count
            &&& state == (State::Failed { reason: RunError::Read }) ==> reads == values + 1
            &&& (state matches State::Failed { reason } && reason != RunError::Read) ==> reads
                == 0
            &&& state is CharacteristicResolved ==> reads == 1 && values == 0
            &&& state matches State::Polling { completed, awaiting, .. } ==> values == completed
                && reads == completed + if awaiting is Read {
                1nat
            } else {
                0nat
            }
            &&& !(state is CharacteristicResolved || state is Polling || state is Done
                || state is Failed) ==> reads == 0
        }),
{
    lemma_accounted(config, events);
}

/// A run holds at most one connection: it asks for a connection at most
/// once, and not before a peripheral was chosen.
pub proof fn lemma_single_connection(config: ConfigView, events: Seq<EventView>)
    ensures
        connections_requested(actions_after(config, events)) <= 1,
        (state_after(config, events) is Idle || state_after(config, events) is AdapterAcquired
            || state_after(config, events) is Scanning) ==> connections_requested(
            actions_after(config, events),
        ) == 0,
{
    lemma_accounted(config, events);
}

proof fn lemma_take_of_drop_last(events: Seq<EventView>, at: int)
    requires
        0 <= at < events.len(),
    ensures
        events.drop_last().take(at) == events.take(at),
        events.drop_last() == events.take(events.len() - 1),
{
}

proof fn lemma_discovery_before(config: ConfigView, events: Seq<EventView>, peripheral: usize)
    requires
        state_after(config, events) == (State::ServicesResolved { peripheral }),
    ensures
        exists|at: int| discovered_at(config, events, at, peripheral),
    decreases events.len(),
{
    let last = events.len() - 1;
    let earlier = events.drop_last();
    if state_after(config, earlier) == (State::Connected { peripheral }) {
        assert(discovered_at(config, events, last, peripheral));
    } else {
        lemma_discovery_before(config, earlier, peripheral);
        let at = choose|at: int| discovered_at(config, earlier, at, peripheral);
        lemma_take_of_drop_last(events, at);
        assert(discovered_at(config, events, at, peripheral));
    }
}

/// Characteristics are looked up only after service discovery succeeded on
/// the same peripheral.
///
/// Where a run acts on a list of characteristics, it stands in
/// `ServicesResolved` for some peripheral, and at an earlier position it was
/// told, while connected to that peripheral, that discovery succeeded.
pub proof fn lemma_resolution_follows_discovery(
    config: ConfigView,
    events: Seq<EventView>,
    at: int,
)
    requires
        acted_on(config, events, at),
        events[at] is CharacteristicsListed,
    ensures
        state_after(config, events.take(at)) matches State::ServicesResolved { peripheral }
            && exists|earlier: int|
            earlier < at && discovered_at(config, events, earlier, peripheral),
{
    let before = events.take(at);
    let peripheral = state_after(config, before)->ServicesResolved_peripheral;
    lemma_discovery_before(config, before, peripheral);
    let earlier = choose|earlier: int| discovered_at(config, before, earlier, peripheral);
    assert(before.take(earlier) =~= events.take(earlier));
    assert(discovered_at(config, events, earlier, peripheral));
}

/// The run reads `characteristic` of `peripheral`, or is about to.
spec fn polls(state: State, peripheral: usize, characteristic: usize) -> bool {
    ||| state == (State::CharacteristicResolved { peripheral, characteristic })
    ||| state matches State::Polling { peripheral: p, characteristic: c, .. } && p == peripheral
        && c == characteristic
}

proof fn lemma_resolution_before(
    config: ConfigView,
    events: Seq<EventView>,
    peripheral: usize,
    characteristic: usize,
)
    requires
        well_formed(events),
        polls(state_after(config, events), peripheral, characteristic),
    ensures
        exists|at: int| resolved_at(config, events, at, peripheral, characteristic),
    decreases events.len(),
{
    let last = events.len() - 1;
    let earlier = events.drop_last();
    if state_after(config, earlier) == (State::ServicesResolved { peripheral }) {
        let uuids = events.last()->CharacteristicsListed_uuids;
        lemma_resolution_is_first_position(uuids, config.target_uuid);
        assert(resolved_at(config, events, last, peripheral, characteristic));
    } else {
        lemma_resolution_before(config, earlier, peripheral, characteristic);
        let at = choose|at: int| resolved_at(config, earlier, at, peripheral, characteristic);
        lemma_take_of_drop_last(events, at);
        assert(resolved_at(config, events, at, peripheral, characteristic));
    }
}

/// No read is asked for before the target characteristic was found among
/// those of the connected peripheral.
///
/// Where a run, acting on an event, asks for a read, then at that position
/// or an earlier one it was given the characteristics of that peripheral,
/// after service discovery, and the characteristic to read is the first in
/// that list with the target identifier.
pub proof fn lemma_reads_follow_resolution(config: ConfigView, events: Seq<EventView>, at: int)
    requires
        well_formed(events),
        acted_on(config, events, at),
        request_at(config, events, at) is Read,
    ensures
        request_at(config, events, at) matches ActionView::Read { peripheral, characteristic }
            && exists|earlier: int|
            earlier <= at && resolved_at(config, events, earlier, peripheral, characteristic),
{
    let before = events.take(at);
    let state = state_after(config, before);
    let peripheral = request_at(config, events, at)->Read_peripheral;
    let characteristic = request_at(config, events, at)->Read_characteristic;
    if state is ServicesResolved {
        let uuids = events[at]->CharacteristicsListed_uuids;
        lemma_resolution_is_first_position(uuids, config.target_uuid);
        assert(resolved_at(config, events, at, peripheral, characteristic));
    } else {
        lemma_resolution_before(config, before, peripheral, characteristic);
        let earlier = choose|earlier: int|
            resolved_at(config, before, earlier, peripheral, characteristic);
        assert(before.take(earlier) =~= events.take(earlier));
        assert(resolved_at(config, events, earlier, peripheral, characteristic));
    }
}

} // verus!
