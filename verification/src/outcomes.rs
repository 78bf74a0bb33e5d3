//! What a run comes to where the host answers each request in turn.
//!
//! The scan and the polling are stated here by their outcomes: given what
//! the peripherals advertise, or what the reads return, where does the run
//! end and what has it asked for.

use crate::config::ConfigView;
use crate::error::RunError;
use crate::laws::{emitted, lemma_counts_push, reads_requested};
use crate::replay::{advance, requests_from, run_from};
use crate::resolver::resolution;
use crate::run::{transition, ActionView, Awaiting, EventView, State};
use crate::scanner::{is_scan_result, passed_over, selected, AdvertisementView};
use vstd::prelude::*;

verus! {

proof fn lemma_told_one_more(
    config: ConfigView,
    start: State,
    events: Seq<EventView>,
    event: EventView,
)
    ensures
        run_from(config, start, events.push(event)) == advance(
            config,
            run_from(config, start, events),
            event,
        ),
        requests_from(config, start, events.push(event)) == match transition(
            config,
            run_from(config, start, events),
            event,
        ) {
            Some(step) => requests_from(config, start, events).push(step.action),
            None => requests_from(config, start, events),
        },
{
    assert(events.push(event).drop_last() =~= events);
}

/// What a host reports that, after the scan window, knows the peripherals
/// with these `advertisements`: how many there are, then the advertisement
/// of each in list order.
pub open spec fn scanned(advertisements: Seq<AdvertisementView>) -> Seq<EventView> {
    Seq::new(
        advertisements.len() + 1,
        |k: int|
            if k == 0 {
                EventView::PeripheralsListed { count: advertisements.len() as usize }
            } else {
                EventView::Properties(advertisements[k - 1])
            },
    )
}

/// Where a scan that met `result` leaves the run.
pub open spec fn scan_verdict(result: Result<Option<usize>, RunError>) -> State {
    match result {
        Ok(Some(peripheral)) => State::PeripheralFound { peripheral },
        Ok(None) => State::Failed { reason: RunError::NoMatchFound },
        Err(reason) => State::Failed { reason },
    }
}

proof fn lemma_scan_prefix(
    config: ConfigView,
    adapter: usize,
    advertisements: Seq<AdvertisementView>,
    decisive: int,
    upto: int,
)
    requires
        advertisements.len() <= usize::MAX,
        0 <= decisive <= advertisements.len(),
        passed_over(advertisements, config.target_name, decisive),
        decisive < advertisements.len() ==> advertisements[decisive] is Unavailable || selected(
            advertisements[decisive],
            config.target_name,
        ),
        0 <= upto <= advertisements.len(),
    ensures
        run_from(
            config,
            State::AdapterAcquired { adapter },
            scanned(advertisements).take(upto + 1),
        ) == if upto <= decisive && upto < advertisements.len() {
            State::Scanning { next: upto as usize, count: advertisements.len() as usize }
        } else if decisive == advertisements.len() {
            State::Failed { reason: RunError::NoMatchFound }
        } else if advertisements[decisive] is Unavailable {
            State::Failed { reason: RunError::ScanProperty }
        } else {
            State::PeripheralFound { peripheral: decisive as usize }
        },
    decreases upto,
{
    let events = scanned(advertisements);
    let start = State::AdapterAcquired { adapter };
    if upto == 0 {
        assert(events.take(1) =~= Seq::<EventView>::empty().push(events[0]));
        lemma_told_one_more(config, start, Seq::empty(), events[0]);
    } else {
        lemma_scan_prefix(config, adapter, advertisements, decisive, upto - 1);
        assert(events.take(upto + 1) =~= events.take(upto).push(events[upto]));
        lemma_told_one_more(config, start, events.take(upto), events[upto]);
    }
}

/// A scan that is made one peripheral at a time ends as `find_light` says.
///
/// Let a run that has an adapter be told how many peripherals the scan has
/// discovered and then, in list order, what each of them advertises. Then it
/// stands where the result of `find_light` on the same list puts it: at the
/// first peripheral whose name is selected, or failed with `NoMatchFound`
/// where there is none, or failed with `ScanProperty` where an unavailable
/// advertisement came before any match.
pub proof fn lemma_scan_agrees_with_find_light(
    config: ConfigView,
    adapter: usize,
    advertisements: Seq<AdvertisementView>,
    result: Result<Option<usize>, RunError>,
)
    requires
        advertisements.len() <= usize::MAX,
        is_scan_result(advertisements, config.target_name, result),
    ensures
        run_from(config, State::AdapterAcquired { adapter }, scanned(advertisements))
            == scan_verdict(result),
{
    let events = scanned(advertisements);
    let decisive: int = match result {
        Ok(Some(at)) => at as int,
        Ok(None) => advertisements.len() as int,
        Err(_) => choose|at: int|
            0 <= at < advertisements.len() && #[trigger] advertisements[at] is Unavailable
                && passed_over(advertisements, config.target_name, at),
    };
    lemma_scan_prefix(config, adapter, advertisements, decisive, advertisements.len() as int);
    assert(events.take(advertisements.len() as int + 1) =~= events);
}

/// What a host reports that lists the characteristics `uuids` and then
/// answers the reads, in order, as `outcomes` say: for a value the completed
/// read and then the end of its pause, for `None` the failed read.
pub open spec fn polled(uuids: Seq<u128>, outcomes: Seq<Option<Seq<u8>>>) -> Seq<EventView>
    decreases outcomes.len(),
{
    if outcomes.len() == 0 {
        seq![EventView::CharacteristicsListed { uuids }]
    } else {
        match outcomes.last() {
            Some(value) => polled(uuids, outcomes.drop_last()).push(
                EventView::ReadCompleted { value },
            ).push(EventView::DelayElapsed),
            None => polled(uuids, outcomes.drop_last()).push(EventView::ReadFailed),
        }
    }
}

/// `good` counts the reads that return a value before the polling ends: the
/// first `good` outcomes are values, and then the limit is reached, or the
/// outcomes are used up, or a failure follows.
pub open spec fn leading_values(outcomes: Seq<Option<Seq<u8>>>, limit: u32, good: int) -> bool {
    &&& 0 <= good <= limit
    &&& good <= outcomes.len()
    &&& forall|k: int| 0 <= k < good ==> (#[trigger] outcomes[k]) is Some
    &&& good == limit || good == outcomes.len() || outcomes[good] is None
}

/// The state in which the run has `completed` values and waits for the next
/// read of `characteristic`.
pub open spec fn awaits_read(peripheral: usize, characteristic: usize, completed: int) -> State {
    if completed == 0 {
        State::CharacteristicResolved { peripheral, characteristic }
    } else {
        State::Polling {
            peripheral,
            characteristic,
            completed: completed as u32,
            awaiting: Awaiting::Read,
        }
    }
}

/// The reads of a polling run, by what the reads come to.
///
/// Let a run that has discovered the services of `peripheral` be given a
/// list of characteristics that holds the target, and let its reads then be
/// answered by `outcomes`, in order. Let `good` be the number of reads that
/// return a value before the polling ends.
///
/// Where all `read_count` reads return a value, the run asks for exactly
/// `read_count` reads and is `Done`. Where a read fails before that, the run
/// asks for exactly the reads up to and including the one that failed, and
/// has failed with `Read`; what follows the failure is not acted on. Where
/// the outcomes are used up first, the run waits for the outcome of the next
/// read. In each case the values handed to the operator are the values of
/// the good reads, in the order in which they were read.
pub proof fn lemma_poller_reads(
    config: ConfigView,
    peripheral: usize,
    uuids: Seq<u128>,
    outcomes: Seq<Option<Seq<u8>>>,
    good: int,
)
    requires
        uuids.len() <= usize::MAX,
        uuids.contains(config.target_uuid),
        leading_values(outcomes, config.read_count, good),
    ensures
        ({
            let start = State::ServicesResolved { peripheral };
            let requests = requests_from(config, start, polled(uuids, outcomes));
            let characteristic = resolution(uuids, config.target_uuid)->0 as usize;
            &&& emitted(requests) == Seq::new(good as nat, |k: int| outcomes[k]->0)
            &&& reads_requested(requests) == if good == config.read_count {
                good
            } else {
                good + 1
            }
            &&& run_from(config, start, polled(uuids, outcomes)) == if good == config.read_count {
                State::Done
            } else if good < outcomes.len() {
                State::Failed { reason: RunError::Read }
            } else {
                awaits_read(peripheral, characteristic, good)
            }
        }),
    decreases outcomes.len(),
{
    let start = State::ServicesResolved { peripheral };
    let none = Seq::<ActionView>::empty();
    let listed = EventView::CharacteristicsListed { uuids };
    if outcomes.len() == 0 {
        let first = transition(config, start, listed)->0;
        lemma_told_one_more(config, start, Seq::empty(), listed);
        lemma_counts_push(none, first.action);
    } else {
        let shorter = outcomes.drop_last();
        let before: int = if good < shorter.len() {
            good
        } else {
            shorter.len() as int
        };
        assert forall|k: int| 0 <= k < before implies (#[trigger] shorter[k]) is Some by {
            assert(outcomes[k] is Some);
        }
        lemma_poller_reads(config, peripheral, uuids, shorter, before);
        let told = polled(uuids, shorter);
        let state = run_from(config, start, told);
        let requests = requests_from(config, start, told);
        match outcomes.last() {
            Some(value) => {
                let completed = EventView::ReadCompleted { value };
                lemma_told_one_more(config, start, told, completed);
                lemma_told_one_more(config, start, told.push(completed), EventView::DelayElapsed);
                if before < config.read_count && before == shorter.len() {
                    let emit = transition(config, state, completed)->0;
                    let after = transition(config, emit.state, EventView::DelayElapsed)->0;
                    lemma_counts_push(requests, emit.action);
                    lemma_counts_push(requests.push(emit.action), after.action);
                }
            },
            None => {
                lemma_told_one_more(config, start, told, EventView::ReadFailed);
                if before < config.read_count && before == shorter.len() {
                    let fail = transition(config, state, EventView::ReadFailed)->0;
                    lemma_counts_push(requests, fail.action);
                }
            },
        }
    }
}

} // verus!
