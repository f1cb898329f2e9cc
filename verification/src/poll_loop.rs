//! The poll loop as a state machine.
//!
//! The loop runs in rounds. A round joins a period timer with one poll
//! cycle and ends when both are done. An interrupt ends the loop at once,
//! whatever the round was doing. The caller performs each `Action` and
//! reports what happened as an `Event`.

use vstd::prelude::*;
use crate::config::{AppConfig, AppConfigView};
use crate::cycle::{check_for_device, plan_cycle};
use crate::device::{device_views, Device, DeviceView};
use crate::error::{CycleError, CycleResult};
use crate::message::{Publication, PublicationView};

verus! {

/// What the outside world reports to the loop.
#[derive(Clone, Debug, PartialEq, Eq)]
pub enum Event {
    /// The period timer of the current round fired.
    TimerElapsed,
    /// The router answered with its device list.
    DevicesFetched(Vec<Device>),
    /// The router could not be asked.
    FetchFailed,
    /// The broker took the message.
    Published,
    /// The broker did not take the message.
    PublishFailed,
    /// The process was told to stop.
    Interrupt,
}

/// An `Event` as a mathematical value.
pub enum EventView {
    TimerElapsed,
    DevicesFetched(Seq<DeviceView>),
    FetchFailed,
    Published,
    PublishFailed,
    Interrupt,
}

impl View for Event {
    type V = EventView;

    open spec fn view(&self) -> EventView {
        match self {
            Event::TimerElapsed => EventView::TimerElapsed,
            Event::DevicesFetched(devices) => EventView::DevicesFetched(device_views(devices@)),
            Event::FetchFailed => EventView::FetchFailed,
            Event::Published => EventView::Published,
            Event::PublishFailed => EventView::PublishFailed,
            Event::Interrupt => EventView::Interrupt,
        }
    }
}

/// What the loop asks the outside world to do.
#[derive(Debug, PartialEq, Eq)]
pub enum Action {
    /// Start a timer that fires after this many seconds.
    StartTimer { seconds: u64 },
    /// Request the device list of this network.
    FetchDevices { network_id: String },
    /// Hand the message to the broker.
    Publish(Publication),
    /// Warn that the configured device is not known to the network.
    WarnUnknownDevice,
    /// A round is over; this is how its poll cycle ended.
    RoundFinished(CycleResult),
    /// Close the broker session, ignoring failure.
    Disconnect,
    /// Leave the process.
    Exit,
}

/// An `Action` as a mathematical value.
pub enum ActionView {
    StartTimer { seconds: u64 },
    FetchDevices { network_id: Seq<char> },
    Publish(PublicationView),
    WarnUnknownDevice,
    RoundFinished(CycleResult),
    Disconnect,
    Exit,
}

impl View for Action {
    type V = ActionView;

    open spec fn view(&self) -> ActionView {
        match self {
            Action::StartTimer { seconds } => ActionView::StartTimer { seconds: *seconds },
            Action::FetchDevices { network_id } => ActionView::FetchDevices {
                network_id: network_id@,
            },
            Action::Publish(p) => ActionView::Publish(p@),
            Action::WarnUnknownDevice => ActionView::WarnUnknownDevice,
            Action::RoundFinished(result) => ActionView::RoundFinished(*result),
            Action::Disconnect => ActionView::Disconnect,
            Action::Exit => ActionView::Exit,
        }
    }
}

/// The views of a list of actions, in list order.
pub open spec fn action_views(actions: Seq<Action>) -> Seq<ActionView> {
    actions.map_values(|a: Action| a@)
}

/// How far the poll cycle of the current round has come.
#[derive(Clone, Copy, Debug, PartialEq, Eq)]
pub enum CheckPhase {
    /// The device list has been requested.
    Fetching,
    /// A message has been handed out for publishing.
    Publishing,
    /// The cycle is over.
    Finished(CycleResult),
}

/// One round: a period timer joined with a poll cycle.
#[derive(Clone, Copy, Debug, PartialEq, Eq)]
pub struct Round {
    pub timer_elapsed: bool,
    pub check: CheckPhase,
}

/// The two states of the loop.
#[derive(Clone, Copy, Debug, PartialEq, Eq)]
pub enum LoopState {
    /// A round is under way.
    Polling(Round),
    /// An interrupt has arrived. Nothing leads out of this state.
    ShuttingDown,
}

/// A round that has just begun.
pub open spec fn fresh_round() -> Round {
    Round { timer_elapsed: false, check: CheckPhase::Fetching }
}

/// The state in which the loop starts.
pub open spec fn initial_state() -> LoopState {
    LoopState::Polling(fresh_round())
}

/// What begins a round: the timer is set to the configured period and the
/// device list of the configured network is requested.
pub open spec fn round_start(config: AppConfigView) -> Seq<ActionView> {
    seq![
        ActionView::StartTimer { seconds: config.period_s },
        ActionView::FetchDevices { network_id: config.network_id },
    ]
}

/// The effect of an event on the poll cycle. An event that does not belong
/// to the current phase changes nothing.
pub open spec fn check_step(check: CheckPhase, device_name: Seq<char>, event: EventView) -> (
    CheckPhase,
    Seq<ActionView>,
) {
    match (check, event) {
        (CheckPhase::Fetching, EventView::DevicesFetched(devices)) => match plan_cycle(
            devices,
            device_name,
        ) {
            Ok(Some(p)) => (CheckPhase::Publishing, seq![ActionView::Publish(p)]),
            Ok(None) => (CheckPhase::Finished(Ok(())), seq![ActionView::WarnUnknownDevice]),
            Err(e) => (CheckPhase::Finished(Err(e)), seq![]),
        },
        (CheckPhase::Fetching, EventView::FetchFailed) => (
            CheckPhase::Finished(Err(CycleError::Fetch)),
            seq![],
        ),
        (CheckPhase::Publishing, EventView::Published) => (CheckPhase::Finished(Ok(())), seq![]),
        (CheckPhase::Publishing, EventView::PublishFailed) => (
            CheckPhase::Finished(Err(CycleError::Publish)),
            seq![],
        ),
        _ => (check, seq![]),
    }
}

/// The effect of an event on a round: the timer event marks the timer, every
/// other event goes to the poll cycle.
pub open spec fn round_step(round: Round, device_name: Seq<char>, event: EventView) -> (
    Round,
    Seq<ActionView>,
) {
    match event {
        EventView::TimerElapsed => (Round { timer_elapsed: true, check: round.check }, seq![]),
        _ => {
            let (check, actions) = check_step(round.check, device_name, event);
            (Round { timer_elapsed: round.timer_elapsed, check }, actions)
        },
    }
}

/// The result of a round that is over: both the timer has fired and the
/// poll cycle is finished. `None` while either is still pending.
pub open spec fn round_outcome(round: Round) -> Option<CycleResult> {
    match round.check {
        CheckPhase::Finished(result) => if round.timer_elapsed {
            Some(result)
        } else {
            None
        },
        _ => None,
    }
}

/// The transition function: the state after `event` and the actions it
/// calls for, in order.
pub open spec fn next(config: AppConfigView, state: LoopState, event: EventView) -> (
    LoopState,
    Seq<ActionView>,
) {
    match state {
        LoopState::ShuttingDown => (LoopState::ShuttingDown, seq![]),
        LoopState::Polling(round) => match event {
            EventView::Interrupt => (
                LoopState::ShuttingDown,
                seq![ActionView::Disconnect, ActionView::Exit],
            ),
            _ => {
                let (round, actions) = round_step(round, config.device_name, event);
                match round_outcome(round) {
                    Some(result) => (
                        LoopState::Polling(fresh_round()),
                        actions + seq![ActionView::RoundFinished(result)] + round_start(config),
                    ),
                    None => (LoopState::Polling(round), actions),
                }
            },
        },
    }
}

impl CheckPhase {
    /// Advances the poll cycle by one event.
    pub fn on_event(self, config: &AppConfig, event: Event) -> (r: (CheckPhase, Vec<Action>))
        ensures
            (r.0, action_views(r.1@)) == check_step(self, config.device_name@, event@),
    {
        let mut actions: Vec<Action> = Vec::new();
        let phase = match self {
            CheckPhase::Fetching => match event {
                Event::DevicesFetched(devices) => match check_for_device(&devices, config) {
                    Ok(Some(p)) => {
                        actions.push(Action::Publish(p));
                        CheckPhase::Publishing
                    },
                    Ok(None) => {
                        actions.push(Action::WarnUnknownDevice);
                        CheckPhase::Finished(Ok(()))
                    },
                    Err(e) => CheckPhase::Finished(Err(e)),
                },
                Event::FetchFailed => CheckPhase::Finished(Err(CycleError::Fetch)),
                _ => self,
            },
            CheckPhase::Publishing => match event {
                Event::Published => CheckPhase::Finished(Ok(())),
                Event::PublishFailed => CheckPhase::Finished(Err(CycleError::Publish)),
                _ => self,
            },
            CheckPhase::Finished(_) => self,
        };
        (phase, actions)
    }
}

impl Round {
    /// A round that has just begun.
    pub fn fresh() -> (round: Round)
        ensures
            round == fresh_round(),
    {
        Round { timer_elapsed: false, check: CheckPhase::Fetching }
    }

    /// Advances the round by one event.
    pub fn on_event(self, config: &AppConfig, event: Event) -> (r: (Round, Vec<Action>))
        ensures
            (r.0, action_views(r.1@)) == round_step(self, config.device_name@, event@),
    {
        match event {
            Event::TimerElapsed => (Round { timer_elapsed: true, check: self.check }, Vec::new()),
            _ => {
                let (check, actions) = self.check.on_event(config, event);
                (Round { timer_elapsed: self.timer_elapsed, check }, actions)
            },
        }
    }

    /// The result of the round once the timer has fired and the poll cycle
    /// is finished.
    pub fn outcome(&self) -> (r: Option<CycleResult>)
        ensures
            r == round_outcome(*self),
    {
        match self.check {
            CheckPhase::Finished(result) => if self.timer_elapsed {
                Some(result)
            } else {
                None
            },
            _ => None,
        }
    }
}

/// Appends the actions that begin a round.
fn push_round_start(actions: &mut Vec<Action>, config: &AppConfig)
    ensures
        action_views(final(actions)@) == action_views(old(actions)@) + round_start(config@),
{
    actions.push(Action::StartTimer { seconds: config.period_s });
    actions.push(Action::FetchDevices { network_id: config.network_id.clone() });
}

/// The poll loop: its configuration and its current state.
#[derive(Clone, Debug, PartialEq, Eq)]
pub struct PollLoop {
    pub config: AppConfig,
    pub state: LoopState,
}

impl PollLoop {
    /// Starts the loop: the first round begins.
    pub fn start(config: AppConfig) -> (r: (PollLoop, Vec<Action>))
        ensures
            r.0.config == config,
            r.0.state == initial_state(),
            action_views(r.1@) == round_start(config@),
    {
        let mut actions: Vec<Action> = Vec::new();
        push_round_start(&mut actions, &config);
        (PollLoop { config, state: LoopState::Polling(Round::fresh()) }, actions)
    }

    /// Takes one event and returns the actions it calls for, in order.
    pub fn step(&mut self, event: Event) -> (actions: Vec<Action>)
        ensures
            final(self).config == old(self).config,
            (final(self).state, action_views(actions@)) == next(
                old(self).config@,
                old(self).state,
                event@,
            ),
    {
        match self.state {
            LoopState::ShuttingDown => Vec::new(),
            LoopState::Polling(round) => match event {
                Event::Interrupt => {
                    self.state = LoopState::ShuttingDown;
                    let mut actions: Vec<Action> = Vec::new();
                    actions.push(Action::Disconnect);
                    actions.push(Action::Exit);
                    actions
                },
                _ => {
                    let (round, mut actions) = round.on_event(&self.config, event);
                    match round.outcome() {
                        Some(result) => {
                            self.state = LoopState::Polling(Round::fresh());
                            actions.push(Action::RoundFinished(result));
                            push_round_start(&mut actions, &self.config);
                        },
                        None => {
                            self.state = LoopState::Polling(round);
                        },
                    }
                    actions
                },
            },
        }
    }

    /// Whether the loop has been told to stop.
    pub fn is_shutting_down(&self) -> (b: bool)
        ensures
            b == (self.state is ShuttingDown),
    {
        match self.state {
            LoopState::ShuttingDown => true,
            LoopState::Polling(_) => false,
        }
    }
}

} // verus!
