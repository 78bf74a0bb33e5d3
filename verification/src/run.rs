//! The course of one run, as a state machine.
//!
//! The caller does the outside work and reports how it went; `step` says what
//! this means for the run and what is to be done next. A state is a point at
//! which the run waits for the outcome of outside work, so the states follow
//! one another as the stages of a run do:
//!
//! `Idle`, `AdapterAcquired`, `Scanning`, `PeripheralFound`, `Connected`,
//! `ServicesResolved`, `CharacteristicResolved`, `Polling`, `Done`,
//!
//! with `Failed` in place of the next one wherever a stage fails. Looking up
//! the characteristic among those listed needs no outside work: the step that
//! takes the listing already asks for the first read, and a run that is
//! configured for no read at all is `Done` with that step.
//!
//! A run never asks for the link to be closed, neither when it is done nor
//! when it fails: the connection is left as it is, for the caller to close.

use crate::config::{Config, ConfigView};
use crate::error::RunError;
use crate::resolver::{find_characteristic, resolution};
use crate::scanner::{inspect, selected, Advertisement, AdvertisementView};
use vstd::prelude::*;

verus! {

/// What a polling run waits for.
#[derive(Clone, Copy, Debug, PartialEq, Eq, Structural)]
pub enum Awaiting {
    /// The outcome of a read that was asked for.
    Read,
    /// The end of the pause that follows a read.
    Delay,
}

/// Where a run stands.
#[derive(Clone, Copy, Debug, PartialEq, Eq, Structural)]
pub enum State {
    /// Nothing has happened yet; the adapter list is awaited.
    Idle,
    /// The adapter at position `adapter` of the list is in use; the end of
    /// the scan window and the list of discovered peripherals are awaited.
    AdapterAcquired { adapter: usize },
    /// Of `count` discovered peripherals those before `next` were passed
    /// over; the advertised properties of `next` are awaited.
    Scanning { next: usize, count: usize },
    /// The peripheral at position `peripheral` was chosen; the connection is
    /// awaited.
    PeripheralFound { peripheral: usize },
    /// The link is up; service discovery is awaited.
    Connected { peripheral: usize },
    /// Service discovery succeeded; the list of characteristics is awaited.
    ServicesResolved { peripheral: usize },
    /// The characteristic at position `characteristic` of the list carries
    /// the target identifier; the outcome of the first read is awaited.
    CharacteristicResolved { peripheral: usize, characteristic: usize },
    /// `completed` reads have returned a value, at least one.
    Polling { peripheral: usize, characteristic: usize, completed: u32, awaiting: Awaiting },
    /// All reads returned a value. Final.
    Done,
    /// The run failed. Final.
    Failed { reason: RunError },
}

/// What the outside work came to.
#[derive(Clone, Debug, PartialEq, Eq)]
pub enum Event {
    /// The adapters were enumerated; there are `count` of them.
    AdaptersListed { count: usize },
    /// The adapters could not be enumerated.
    AdaptersUnavailable,
    /// The scan window is over; the adapter knows `count` peripherals.
    PeripheralsListed { count: usize },
    /// The advertised properties of the peripheral that was asked about.
    Properties(Advertisement),
    /// The connection is established.
    ConnectionOpened,
    /// The connection could not be established.
    ConnectionFailed,
    /// Services and characteristics were enumerated.
    ServicesDiscovered,
    /// Services and characteristics could not be enumerated.
    DiscoveryFailed,
    /// The identifiers of the characteristics of the peripheral, in the order
    /// in which it lists them.
    CharacteristicsListed { uuids: Vec<u128> },
    /// A read returned `value`.
    ReadCompleted { value: Vec<u8> },
    /// A read failed.
    ReadFailed,
    /// The pause after a read is over.
    DelayElapsed,
}

/// An `Event` with its texts and lists as sequences.
pub enum EventView {
    AdaptersListed { count: usize },
    AdaptersUnavailable,
    PeripheralsListed { count: usize },
    Properties(AdvertisementView),
    ConnectionOpened,
    ConnectionFailed,
    ServicesDiscovered,
    DiscoveryFailed,
    CharacteristicsListed { uuids: Seq<u128> },
    ReadCompleted { value: Seq<u8> },
    ReadFailed,
    DelayElapsed,
}

impl EventView {
    /// The event can be the view of an `Event`: a list in it is no longer
    /// than a `Vec` can be.
    pub open spec fn well_formed(self) -> bool {
        self matches EventView::CharacteristicsListed { uuids } ==> uuids.len() <= usize::MAX
    }
}

impl View for Event {
    type V = EventView;

    open spec fn view(&self) -> EventView {
        match self {
            Event::AdaptersListed { count } => EventView::AdaptersListed { count: *count },
            Event::AdaptersUnavailable => EventView::AdaptersUnavailable,
            Event::PeripheralsListed { count } => EventView::PeripheralsListed { count: *count },
            Event::Properties(advertisement) => EventView::Properties(advertisement@),
            Event::ConnectionOpened => EventView::ConnectionOpened,
            Event::ConnectionFailed => EventView::ConnectionFailed,
            Event::ServicesDiscovered => EventView::ServicesDiscovered,
            Event::DiscoveryFailed => EventView::DiscoveryFailed,
            Event::CharacteristicsListed { uuids } => EventView::CharacteristicsListed {
                uuids: uuids@,
            },
            Event::ReadCompleted { value } => EventView::ReadCompleted { value: value@ },
            Event::ReadFailed => EventView::ReadFailed,
            Event::DelayElapsed => EventView::DelayElapsed,
        }
    }
}

impl DeepView for Event {
    type V = EventView;

    open spec fn deep_view(&self) -> EventView {
        self@
    }
}

/// The view of every event is well formed.
pub proof fn lemma_event_view_well_formed(event: Event)
    ensures
        event@.well_formed(),
{
    if let Event::CharacteristicsListed { uuids } = event {
        assert(uuids.len() == uuids@.len());
    }
}

/// The outside work that the run asks for next.
#[derive(Clone, Debug, PartialEq, Eq)]
pub enum Action {
    /// Ask for the list of local Bluetooth adapters.
    EnumerateAdapters,
    /// On the adapter at position `adapter`, start a scan without a filter,
    /// wait `duration` milliseconds, then list the peripherals it knows.
    Scan { adapter: usize, duration: u64 },
    /// Fetch the advertised properties of the peripheral at `peripheral`.
    FetchProperties { peripheral: usize },
    /// Connect to the peripheral.
    Connect { peripheral: usize },
    /// Enumerate the services and characteristics of the peripheral.
    DiscoverServices { peripheral: usize },
    /// List the identifiers of the characteristics that were discovered.
    ListCharacteristics { peripheral: usize },
    /// Read the characteristic at position `characteristic` of that list.
    Read { peripheral: usize, characteristic: usize },
    /// Hand `value` to the operator, then pause for `delay` milliseconds.
    Emit { value: Vec<u8>, delay: u64 },
    /// The run is complete.
    Finish,
    /// The run has failed: report `reason` and stop.
    Fail { reason: RunError },
}

/// An `Action` with its value as a sequence of bytes.
pub enum ActionView {
    EnumerateAdapters,
    Scan { adapter: usize, duration: u64 },
    FetchProperties { peripheral: usize },
    Connect { peripheral: usize },
    DiscoverServices { peripheral: usize },
    ListCharacteristics { peripheral: usize },
    Read { peripheral: usize, characteristic: usize },
    Emit { value: Seq<u8>, delay: u64 },
    Finish,
    Fail { reason: RunError },
}

impl View for Action {
    type V = ActionView;

    open spec fn view(&self) -> ActionView {
        match self {
            Action::EnumerateAdapters => ActionView::EnumerateAdapters,
            Action::Scan { adapter, duration } => ActionView::Scan {
                adapter: *adapter,
                duration: *duration,
            },
            Action::FetchProperties { peripheral } => ActionView::FetchProperties {
                peripheral: *peripheral,
            },
            Action::Connect { peripheral } => ActionView::Connect { peripheral: *peripheral },
            Action::DiscoverServices { peripheral } => ActionView::DiscoverServices {
                peripheral: *peripheral,
            },
            Action::ListCharacteristics { peripheral } => ActionView::ListCharacteristics {
                peripheral: *peripheral,
            },
            Action::Read { peripheral, characteristic } => ActionView::Read {
                peripheral: *peripheral,
                characteristic: *characteristic,
            },
            Action::Emit { value, delay } => ActionView::Emit { value: value@, delay: *delay },
            Action::Finish => ActionView::Finish,
            Action::Fail { reason } => ActionView::Fail { reason: *reason },
        }
    }
}

impl DeepView for Action {
    type V = ActionView;

    open spec fn deep_view(&self) -> ActionView {
        self@
    }
}

/// The state that an event leads to, with the work to do there.
#[derive(Clone, Debug, PartialEq, Eq)]
pub struct Step {
    pub state: State,
    pub action: Action,
}

/// A `Step` with the view of its action.
pub struct StepView {
    pub state: State,
    pub action: ActionView,
}

impl View for Step {
    type V = StepView;

    open spec fn view(&self) -> StepView {
        StepView { state: self.state, action: self.action@ }
    }
}

impl DeepView for Step {
    type V = StepView;

    open spec fn deep_view(&self) -> StepView {
        self@
    }
}

impl State {
    /// The run is over: no event changes this state.
    pub open spec fn terminal(self) -> bool {
        self is Done || self is Failed
    }

    /// How far the run has come: the stages in their order, with `Failed`
    /// after them all.
    pub open spec fn stage(self) -> nat {
        match self {
            State::Idle => 0,
            State::AdapterAcquired { .. } => 1,
            State::Scanning { .. } => 2,
            State::PeripheralFound { .. } => 3,
            State::Connected { .. } => 4,
            State::ServicesResolved { .. } => 5,
            State::CharacteristicResolved { .. } => 6,
            State::Polling { .. } => 7,
            State::Done => 8,
            State::Failed { .. } => 9,
        }
    }

    /// What holds of every state that a run reaches: a scan looks at a
    /// peripheral that was listed, and the count of completed reads fits what
    /// is awaited.
    pub open spec fn well_formed(self, config: ConfigView) -> bool {
        match self {
            State::Scanning { next, count } => next < count,
            State::CharacteristicResolved { .. } => 0 < config.read_count,
            State::Polling { completed, awaiting: Awaiting::Read, .. } => 0 < completed
                < config.read_count,
            State::Polling { completed, awaiting: Awaiting::Delay, .. } => 0 < completed
                <= config.read_count,
            _ => true,
        }
    }

    /// Whether the run is over.
    pub fn is_terminal(&self) -> (over: bool)
        ensures
            over == self.terminal(),
    {
        match self {
            State::Done => true,
            State::Failed { .. } => true,
            _ => false,
        }
    }
}

/// The step that ends a run with `reason`.
pub open spec fn failure(reason: RunError) -> StepView {
    StepView { state: State::Failed { reason }, action: ActionView::Fail { reason } }
}

/// The step that ends a run whose reads are all done.
pub open spec fn completion() -> StepView {
    StepView { state: State::Done, action: ActionView::Finish }
}

/// How a run starts: in `Idle`, asking for the adapters.
pub open spec fn initial_step() -> StepView {
    StepView { state: State::Idle, action: ActionView::EnumerateAdapters }
}

/// The step that `event` causes in `state`, or `None` where `event` is not
/// the outcome that `state` waits for.
pub open spec fn transition(config: ConfigView, state: State, event: EventView) -> Option<
    StepView,
> {
    match (state, event) {
        (State::Idle, EventView::AdaptersListed { count }) => Some(
            if count > 0 {
                StepView {
                    state: State::AdapterAcquired { adapter: 0 },
                    action: ActionView::Scan { adapter: 0, duration: config.scan_duration },
                }
            } else {
                failure(RunError::NoAdapter)
            },
        ),
        (State::Idle, EventView::AdaptersUnavailable) => Some(failure(RunError::NoAdapter)),
        (State::AdapterAcquired { .. }, EventView::PeripheralsListed { count }) => Some(
            if count > 0 {
                StepView {
                    state: State::Scanning { next: 0, count },
                    action: ActionView::FetchProperties { peripheral: 0 },
                }
            } else {
                failure(RunError::NoMatchFound)
            },
        ),
        (State::Scanning { next, count }, EventView::Properties(advertisement)) => Some(
            if advertisement is Unavailable {
                failure(RunError::ScanProperty)
            } else if selected(advertisement, config.target_name) {
                StepView {
                    state: State::PeripheralFound { peripheral: next },
                    action: ActionView::Connect { peripheral: next },
                }
            } else if next + 1 < count {
                StepView {
                    state: State::Scanning { next: (next + 1) as usize, count },
                    action: ActionView::FetchProperties { peripheral: (next + 1) as usize },
                }
            } else {
                failure(RunError::NoMatchFound)
            },
        ),
        (State::PeripheralFound { peripheral }, EventView::ConnectionOpened) => Some(
            StepView {
                state: State::Connected { peripheral },
                action: ActionView::DiscoverServices { peripheral },
            },
        ),
        (State::PeripheralFound { .. }, EventView::ConnectionFailed) => Some(
            failure(RunError::Connection),
        ),
        (State::Connected { peripheral }, EventView::ServicesDiscovered) => Some(
            StepView {
                state: State::ServicesResolved { peripheral },
                action: ActionView::ListCharacteristics { peripheral },
            },
        ),
        (State::Connected { .. }, EventView::DiscoveryFailed) => Some(
            failure(RunError::Discovery),
        ),
        (State::ServicesResolved { peripheral }, EventView::CharacteristicsListed { uuids }) => Some(
            match resolution(uuids, config.target_uuid) {
                None => failure(RunError::CharacteristicNotFound),
                Some(at) => if config.read_count > 0 {
                    StepView {
                        state: State::CharacteristicResolved {
                            peripheral,
                            characteristic: at as usize,
                        },
                        action: ActionView::Read { peripheral, characteristic: at as usize },
                    }
                } else {
                    completion()
                },
            },
        ),
        (
            State::CharacteristicResolved { peripheral, characteristic },
            EventView::ReadCompleted { value },
        ) => Some(
            StepView {
                state: State::Polling {
                    peripheral,
                    characteristic,
                    completed: 1,
                    awaiting: Awaiting::Delay,
                },
                action: ActionView::Emit { value, delay: config.read_interval },
            },
        ),
        (State::CharacteristicResolved { .. }, EventView::ReadFailed) => Some(
            failure(RunError::Read),
        ),
        (
            State::Polling { peripheral, characteristic, completed, awaiting: Awaiting::Read },
            EventView::ReadCompleted { value },
        ) => if completed < config.read_count {
            Some(
                StepView {
                    state: State::Polling {
                        peripheral,
                        characteristic,
                        completed: (completed + 1) as u32,
                        awaiting: Awaiting::Delay,
                    },
                    action: ActionView::Emit { value, delay: config.read_interval },
                },
            )
        } else {
            None
        },
        (State::Polling { awaiting: Awaiting::Read, .. }, EventView::ReadFailed) => Some(
            failure(RunError::Read),
        ),
        (
            State::Polling { peripheral, characteristic, completed, awaiting: Awaiting::Delay },
            EventView::DelayElapsed,
        ) => Some(
            if completed < config.read_count {
                StepView {
                    state: State::Polling {
                        peripheral,
                        characteristic,
                        completed,
                        awaiting: Awaiting::Read,
                    },
                    action: ActionView::Read { peripheral, characteristic },
                }
            } else {
                completion()
            },
        ),
        _ => None,
    }
}

/// The step that ends a run with `reason`.
fn fail(reason: RunError) -> (step: Step)
    ensures
        step@ == failure(reason),
{
    Step { state: State::Failed { reason }, action: Action::Fail { reason } }
}

/// The step that ends a run whose reads are all done.
fn finish() -> (step: Step)
    ensures
        step@ == completion(),
{
    Step { state: State::Done, action: Action::Finish }
}

/// Starts a run: the state is `Idle` and the adapters are to be enumerated.
pub fn begin() -> (first: Step)
    ensures
        first@ == initial_step(),
{
    Step { state: State::Idle, action: Action::EnumerateAdapters }
}

/// Takes the outcome of the work that was asked for last and says where the
/// run stands now and what is to be done next.
///
/// An event that is not the outcome that `state` waits for changes nothing:
/// the answer is `None`. That holds of every event once the run is `Done` or
/// `Failed`.
pub fn step(config: &Config, state: State, event: Event) -> (next: Option<Step>)
    ensures
        next.deep_view() == transition(config@, state, event@),
{
    match state {
        State::Idle => match event {
            Event::AdaptersListed { count } => {
                if count > 0 {
                    Some(
                        Step {
                            state: State::AdapterAcquired { adapter: 0 },
                            action: Action::Scan { adapter: 0, duration: config.scan_duration },
                        },
                    )
                } else {
                    Some(fail(RunError::NoAdapter))
                }
            },
            Event::AdaptersUnavailable => Some(fail(RunError::NoAdapter)),
            _ => None,
        },
        State::AdapterAcquired { .. } => match event {
            Event::PeripheralsListed { count } => {
                if count > 0 {
                    Some(
                        Step {
                            state: State::Scanning { next: 0, count },
                            action: Action::FetchProperties { peripheral: 0 },
                        },
                    )
                } else {
                    Some(fail(RunError::NoMatchFound))
                }
            },
            _ => None,
        },
        State::Scanning { next, count } => match event {
            Event::Properties(advertisement) => {
                match inspect(&advertisement, config.target_name.as_str()) {
                    Err(reason) => Some(fail(reason)),
                    Ok(true) => Some(
                        Step {
                            state: State::PeripheralFound { peripheral: next },
                            action: Action::Connect { peripheral: next },
                        },
                    ),
                    Ok(false) => {
                        if next < count && next + 1 < count {
                            Some(
                                Step {
                                    state: State::Scanning { next: next + 1, count },
                                    action: Action::FetchProperties { peripheral: next + 1 },
                                },
                            )
                        } else {
                            Some(fail(RunError::NoMatchFound))
                        }
                    },
                }
            },
            _ => None,
        },
        State::PeripheralFound { peripheral } => match event {
            Event::ConnectionOpened => Some(
                Step {
                    state: State::Connected { peripheral },
                    action: Action::DiscoverServices { peripheral },
                },
            ),
            Event::ConnectionFailed => Some(fail(RunError::Connection)),
            _ => None,
        },
        State::Connected { peripheral } => match event {
            Event::ServicesDiscovered => Some(
                Step {
                    state: State::ServicesResolved { peripheral },
                    action: Action::ListCharacteristics { peripheral },
                },
            ),
            Event::DiscoveryFailed => Some(fail(RunError::Discovery)),
            _ => None,
        },
        State::ServicesResolved { peripheral } => match event {
            Event::CharacteristicsListed { uuids } => {
                match find_characteristic(&uuids, config.target_uuid) {
                    Err(reason) => Some(fail(reason)),
                    Ok(characteristic) => {
                        if config.read_count > 0 {
                            Some(
                                Step {
                                    state: State::CharacteristicResolved {
                                        peripheral,
                                        characteristic,
                                    },
                                    action: Action::Read { peripheral, characteristic },
                                },
                            )
                        } else {
                            Some(finish())
                        }
                    },
                }
            },
            _ => None,
        },
        State::CharacteristicResolved { peripheral, characteristic } => match event {
            Event::ReadCompleted { value } => Some(
                Step {
                    state: State::Polling {
                        peripheral,
                        characteristic,
                        completed: 1,
                        awaiting: Awaiting::Delay,
                    },
                    action: Action::Emit { value, delay: config.read_interval },
                },
            ),
            Event::ReadFailed => Some(fail(RunError::Read)),
            _ => None,
        },
        State::Polling { peripheral, characteristic, completed, awaiting: Awaiting::Read } => {
            match event {
                Event::ReadCompleted { value } => {
                    if completed < config.read_count {
                        Some(
                            Step {
                                state: State::Polling {
                                    peripheral,
                                    characteristic,
                                    completed: completed + 1,
                                    awaiting: Awaiting::Delay,
                                },
                                action: Action::Emit { value, delay: config.read_interval },
                            },
                        )
                    } else {
                        None
                    }
                },
                Event::ReadFailed => Some(fail(RunError::Read)),
                _ => None,
            }
        },
        State::Polling { peripheral, characteristic, completed, awaiting: Awaiting::Delay } => {
            match event {
                Event::DelayElapsed => {
                    if completed < config.read_count {
                        Some(
                            Step {
                                state: State::Polling {
                                    peripheral,
                                    characteristic,
                                    completed,
                                    awaiting: Awaiting::Read,
                                },
                                action: Action::Read { peripheral, characteristic },
                            },
                        )
                    } else {
                        Some(finish())
                    }
                },
                _ => None,
            }
        },
        State::Done => None,
        State::Failed { .. } => None,
    }
}

} // verus!
