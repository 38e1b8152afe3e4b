//! The orchestration state machine.
//!
//! The orchestrator never sleeps, probes or sends by itself. It names the one
//! action it waits for; the driver performs it and reports what came back as
//! an [`Event`]; [`Orchestrator::step`] moves to the next state and names the
//! next action.

use vstd::prelude::*;
use crate::config::{ClientConfig, ConfigError};
use crate::notifier::{NotifyRequest, PeerDecision};
use crate::probe::{status, status_of, BatteryState, ReachabilityState};

verus! {

/// Why the orchestrator is in `OfflineRecovery`, and how far it has come.
#[derive(Clone, Copy, Debug, PartialEq, Eq, Structural)]
pub enum Recovery {
    /// The peer did not answer while the host was discharging. Power is not
    /// back, so nothing will be sent to wake the peer.
    PeerUnreachable,
    /// Power has just been confirmed restored; the peer is being probed.
    PowerRestored,
    /// The wake packet has been asked for.
    Waking,
}

/// The state of the orchestrator.
#[derive(Clone, Copy, Debug, PartialEq, Eq, Structural)]
pub enum OrchestratorState {
    /// Watching the battery. `settling` holds after one `Discharging` read,
    /// while the read that confirms it is awaited.
    Monitoring { settling: bool },
    /// The battery is confirmed discharging. First the peer is probed
    /// (`peer_online` is false), then, the peer having answered, the battery
    /// is read once more (`peer_online` is true).
    Discharging { peer_online: bool },
    /// The peer has been notified; its decision is awaited.
    AwaitingPeerDecision,
    /// The peer chose `decision`; `polls` reachability polls have found it
    /// still online.
    ConfirmingShutdown { decision: PeerDecision, polls: u32 },
    /// The outage is dealt with; waiting for the battery to stop discharging.
    WaitingForPower,
    /// Bringing the peer back, or passing on because it cannot be reached.
    OfflineRecovery { stage: Recovery },
}

/// What the driver reports back to the orchestrator.
#[derive(Clone, Copy, Debug, PartialEq, Eq, Structural)]
pub enum Event {
    /// The battery was read.
    Battery(BatteryState),
    /// The battery could not be read.
    BatteryUnavailable,
    /// The peer was probed. A probe that failed is reported as `Offline`.
    Peer(ReachabilityState),
    /// The notification was delivered and this is the peer's decision.
    Decision(PeerDecision),
    /// The notification could not be delivered.
    NotifyFailed,
    /// The wake packet was handed to the network, or could not be.
    WakeSent(bool),
}

impl Event {
    /// Whether the event is a battery read that found the host discharging.
    pub open spec fn discharging_read(self) -> bool {
        self == (Event::Battery(BatteryState::Discharging))
    }

    /// Whether the event is a battery read that found the host not
    /// discharging: power is there.
    pub open spec fn power_read(self) -> bool {
        self matches Event::Battery(state) && !state.discharging()
    }

    /// The report that a battery read amounts to.
    pub open spec fn of_battery(reading: Result<BatteryState, String>) -> Event {
        match reading {
            Ok(state) => Event::Battery(state),
            Err(_) => Event::BatteryUnavailable,
        }
    }

    /// The report that the notifier's outcome amounts to: the decision that
    /// `request` ends in with the reply, or the failure to deliver.
    pub open spec fn of_notification(
        request: NotifyRequest,
        outcome: Result<String, String>,
    ) -> Event {
        match outcome {
            Ok(reply) => Event::Decision(request.decision_of(reply@)),
            Err(_) => Event::NotifyFailed,
        }
    }

    /// The report that an attempt to send the wake packet amounts to: sent
    /// only where the attempt was made and succeeded.
    pub open spec fn of_wake(outcome: Result<bool, String>) -> Event {
        Event::WakeSent(outcome == Ok::<bool, String>(true))
    }

    /// Reports a battery read, or that the battery could not be read.
    pub fn from_battery(reading: Result<BatteryState, String>) -> (event: Event)
        ensures
            event == Self::of_battery(reading),
    {
        match reading {
            Ok(state) => Event::Battery(state),
            Err(_) => Event::BatteryUnavailable,
        }
    }

    /// Reports a reachability probe. A probe that failed counts as `Offline`.
    pub fn from_probe(probe: Result<bool, String>) -> (event: Event)
        ensures
            event == Event::Peer(status_of(probe)),
    {
        Event::Peer(status(probe))
    }

    /// Reports what came of the notification `request`: the peer's reply, or
    /// why it could not be delivered.
    pub fn from_notification(request: NotifyRequest, outcome: Result<String, String>) -> (event:
        Event)
        ensures
            event == Self::of_notification(request, outcome),
    {
        match outcome {
            Ok(reply) => Event::Decision(request.decision(reply.as_str())),
            Err(_) => Event::NotifyFailed,
        }
    }

    /// Reports what came of sending the wake packet.
    pub fn from_wake(outcome: Result<bool, String>) -> (event: Event)
        ensures
            event == Self::of_wake(outcome),
    {
        match outcome {
            Ok(true) => Event::WakeSent(true),
            _ => Event::WakeSent(false),
        }
    }
}

/// What the orchestrator asks the driver to do. Delays are in seconds and
/// come before the action.
#[derive(Clone, Copy, Debug, PartialEq, Eq, Structural)]
pub enum Action {
    /// Wait, then read the battery.
    ReadBattery { delay: u64 },
    /// Wait, then probe the peer once.
    ProbePeer { delay: u64 },
    /// Deliver the notification once and wait for the peer's decision.
    Notify { request: NotifyRequest },
    /// Wait, then send one wake packet to the peer's hardware address.
    SendWake { delay: u64 },
}

/// The state the orchestrator starts in.
pub open spec fn initial_state() -> OrchestratorState {
    OrchestratorState::Monitoring { settling: false }
}

/// What follows a report in `Monitoring`. A `Discharging` read starts the
/// debounce or, as the second in a row, ends it; anything else, a failed
/// read too, clears it.
pub open spec fn after_monitoring(settling: bool, event: Event) -> OrchestratorState {
    if event.discharging_read() {
        if settling {
            OrchestratorState::Discharging { peer_online: false }
        } else {
            OrchestratorState::Monitoring { settling: true }
        }
    } else {
        OrchestratorState::Monitoring { settling: false }
    }
}

/// What follows a report in `Discharging`. While the peer's answer is
/// awaited, `Online` leads on to the battery re-read and `Offline` to
/// `OfflineRecovery`; anything else changes nothing. At the re-read only a
/// `Discharging` read leads on to the notification: any other read, and a
/// read that failed, counts as not discharging and returns to `Monitoring`.
pub open spec fn after_discharging(peer_online: bool, event: Event) -> OrchestratorState {
    if peer_online {
        if event.discharging_read() {
            OrchestratorState::AwaitingPeerDecision
        } else {
            OrchestratorState::Monitoring { settling: false }
        }
    } else {
        match event {
            Event::Peer(ReachabilityState::Online) => OrchestratorState::Discharging {
                peer_online: true,
            },
            Event::Peer(ReachabilityState::Offline) => OrchestratorState::OfflineRecovery {
                stage: Recovery::PeerUnreachable,
            },
            _ => OrchestratorState::Discharging { peer_online: false },
        }
    }
}

/// What follows a report in `AwaitingPeerDecision`. A decision to go down is
/// confirmed, if the settings allow any poll for it; everything else, an
/// unrecognized reply and a failed notification too, ends the wait.
pub open spec fn after_awaiting(config: ClientConfig, event: Event) -> OrchestratorState {
    match event {
        Event::Decision(decision) => {
            if decision.takes_peer_down() && config.confirm_attempts > 0 {
                OrchestratorState::ConfirmingShutdown { decision, polls: 0 }
            } else {
                OrchestratorState::WaitingForPower
            }
        },
        _ => OrchestratorState::WaitingForPower,
    }
}

/// What follows a report in `ConfirmingShutdown`. `Offline` confirms the
/// shutdown; anything else spends one of the polls that the settings allow,
/// and with the last of them the orchestrator moves on regardless.
pub open spec fn after_confirming(
    config: ClientConfig,
    decision: PeerDecision,
    polls: u32,
    event: Event,
) -> OrchestratorState {
    if event == Event::Peer(ReachabilityState::Offline) {
        OrchestratorState::WaitingForPower
    } else if polls + 1 < config.confirm_attempts {
        OrchestratorState::ConfirmingShutdown { decision, polls: (polls + 1) as u32 }
    } else {
        OrchestratorState::WaitingForPower
    }
}

/// What follows a report in `WaitingForPower`. Only a battery read that
/// finds the host not discharging ends the wait.
pub open spec fn after_waiting(event: Event) -> OrchestratorState {
    if event.power_read() {
        OrchestratorState::OfflineRecovery { stage: Recovery::PowerRestored }
    } else {
        OrchestratorState::WaitingForPower
    }
}

/// What follows a report in `OfflineRecovery`. The wake packet is asked for
/// only where power has just been restored, the settings say to wake the
/// peer, and the peer is reported offline. In every other case monitoring
/// starts again.
pub open spec fn after_recovery(
    config: ClientConfig,
    stage: Recovery,
    event: Event,
) -> OrchestratorState {
    match (stage, event) {
        (Recovery::PowerRestored, Event::Peer(peer)) => if config.wakes(peer) {
            OrchestratorState::OfflineRecovery { stage: Recovery::Waking }
        } else {
            OrchestratorState::Monitoring { settling: false }
        },
        _ => OrchestratorState::Monitoring { settling: false },
    }
}

/// The transition function: the state that follows `state` when the driver
/// reports `event`.
///
/// Every state reacts to the answer it waits for. Anything else is read in the
/// most cautious way: it clears a pending debounce, calls off a notification
/// that was about to be sent, spends a confirmation attempt, gives up on a
/// notification or on a wake, and otherwise leaves the state as it is.
pub open spec fn next_state(
    config: ClientConfig,
    state: OrchestratorState,
    event: Event,
) -> OrchestratorState {
    match state {
        OrchestratorState::Monitoring { settling } => after_monitoring(settling, event),
        OrchestratorState::Discharging { peer_online } => after_discharging(peer_online, event),
        OrchestratorState::AwaitingPeerDecision => after_awaiting(config, event),
        OrchestratorState::ConfirmingShutdown { decision, polls } => after_confirming(
            config,
            decision,
            polls,
            event,
        ),
        OrchestratorState::WaitingForPower => after_waiting(event),
        OrchestratorState::OfflineRecovery { stage } => after_recovery(config, stage, event),
    }
}

/// The action the orchestrator waits for in `state`.
pub open spec fn action_for(config: ClientConfig, state: OrchestratorState) -> Action {
    match state {
        OrchestratorState::Monitoring { settling } => Action::ReadBattery {
            delay: if settling {
                config.default_action_delay
            } else {
                config.poll_interval
            },
        },
        OrchestratorState::Discharging { peer_online } => if peer_online {
            Action::ReadBattery { delay: config.poll_interval }
        } else {
            Action::ProbePeer { delay: 0 }
        },
        OrchestratorState::AwaitingPeerDecision => Action::Notify { request: config.request() },
        OrchestratorState::ConfirmingShutdown { .. } => Action::ProbePeer {
            delay: config.default_action_delay,
        },
        OrchestratorState::WaitingForPower => Action::ReadBattery { delay: config.poll_interval },
        OrchestratorState::OfflineRecovery { stage } => match stage {
            Recovery::PeerUnreachable => Action::ProbePeer { delay: config.poll_interval },
            Recovery::PowerRestored => Action::ProbePeer { delay: 0 },
            Recovery::Waking => Action::SendWake { delay: config.default_delay as u64 },
        },
    }
}

/// How many reachability polls `state` still allows for confirming a
/// shutdown: the polls configured less those spent; zero in every other
/// state.
pub open spec fn polls_left_in(config: ClientConfig, state: OrchestratorState) -> int {
    match state {
        OrchestratorState::ConfirmingShutdown { polls, .. } => config.confirm_attempts - polls,
        _ => 0,
    }
}

/// The state reached from `state` when the driver reports `events` in order.
pub open spec fn state_after(
    config: ClientConfig,
    state: OrchestratorState,
    events: Seq<Event>,
) -> OrchestratorState
    decreases events.len(),
{
    if events.len() == 0 {
        state
    } else {
        next_state(config, state_after(config, state, events.drop_last()), events.last())
    }
}

/// The actions asked for in answer to `events`, one for each event: the
/// action at `i` is the one that follows `events[i]`.
pub open spec fn actions_after(
    config: ClientConfig,
    state: OrchestratorState,
    events: Seq<Event>,
) -> Seq<Action> {
    Seq::new(
        events.len(),
        |i: int| action_for(config, state_after(config, state, events.take(i + 1))),
    )
}

/// The failover orchestrator: the settings and the current state.
pub struct Orchestrator {
    config: ClientConfig,
    state: OrchestratorState,
}

impl Orchestrator {
    /// An orchestrator holds valid settings, and while it confirms a shutdown
    /// it has spent fewer polls than the settings allow.
    #[verifier::type_invariant]
    spec fn well_formed(self) -> bool {
        &&& self.config.valid()
        &&& self.state matches OrchestratorState::ConfirmingShutdown { polls, .. } ==> polls
            < self.config.confirm_attempts
    }

    /// The settings the orchestrator was made with.
    pub closed spec fn settings(&self) -> ClientConfig {
        self.config
    }

    /// The current state.
    pub closed spec fn current(&self) -> OrchestratorState {
        self.state
    }

    /// Makes an orchestrator for `config`, in `Monitoring`. Settings that are
    /// not valid are refused: no orchestrator is made of them.
    pub fn new(config: ClientConfig) -> (r: Result<Orchestrator, ConfigError>)
        ensures
            match r {
                Ok(orchestrator) => config.valid() && orchestrator.settings() == config
                    && orchestrator.current() == initial_state(),
                Err(error) => !config.valid() && config.check() == Err::<(), ConfigError>(error),
            },
    {
        match config.validate() {
            Ok(()) => Ok(
                Orchestrator { config, state: OrchestratorState::Monitoring { settling: false } },
            ),
            Err(error) => Err(error),
        }
    }

    /// The settings the orchestrator was made with. They are valid.
    pub fn config(&self) -> (r: &ClientConfig)
        ensures
            *r == self.settings(),
            r.valid(),
    {
        proof {
            use_type_invariant(self);
        }
        &self.config
    }

    /// How many reachability polls are left before the orchestrator stops
    /// confirming a shutdown; zero in every other state.
    pub fn polls_left(&self) -> (left: u32)
        ensures
            left == polls_left_in(self.settings(), self.current()),
            self.current() is ConfirmingShutdown ==> 1 <= left <= self.settings().confirm_attempts,
    {
        proof {
            use_type_invariant(self);
        }
        match self.state {
            OrchestratorState::ConfirmingShutdown { polls, .. } => self.config.confirm_attempts
                - polls,
            _ => 0,
        }
    }

    /// The current state.
    pub fn state(&self) -> (r: OrchestratorState)
        ensures
            r == self.current(),
    {
        self.state
    }

    /// The action the orchestrator waits for: what the driver has to do
    /// before the next call of `step`.
    pub fn pending(&self) -> (action: Action)
        ensures
            action == action_for(self.settings(), self.current()),
    {
        pending_action(&self.config, self.state)
    }

    /// Takes in what the driver reports, moves to the next state and returns
    /// the action to perform next.
    pub fn step(&mut self, event: Event) -> (action: Action)
        ensures
            final(self).settings() == old(self).settings(),
            final(self).current() == next_state(old(self).settings(), old(self).current(), event),
            action == action_for(final(self).settings(), final(self).current()),
    {
        proof {
            use_type_invariant(&*self);
        }
        self.state = transition(&self.config, self.state, event);
        pending_action(&self.config, self.state)
    }

    /// Drops whatever the orchestrator was waiting for and starts monitoring
    /// afresh, for a driver that was told to stop in the middle of a wait.
    /// Returns the action to perform next.
    pub fn reset(&mut self) -> (action: Action)
        ensures
            final(self).settings() == old(self).settings(),
            final(self).current() == initial_state(),
            action == action_for(final(self).settings(), initial_state()),
    {
        proof {
            use_type_invariant(&*self);
        }
        self.state = OrchestratorState::Monitoring { settling: false };
        pending_action(&self.config, self.state)
    }

    /// Takes in a whole sequence of reports and returns the actions asked
    /// for, one for each report.
    pub fn run(&mut self, events: &Vec<Event>) -> (actions: Vec<Action>)
        ensures
            final(self).settings() == old(self).settings(),
            final(self).current() == state_after(
                old(self).settings(),
                old(self).current(),
                events@,
            ),
            actions@ == actions_after(old(self).settings(), old(self).current(), events@),
    {
        let mut actions: Vec<Action> = Vec::new();
        let mut i: usize = 0;
        while i < events.len()
            invariant
                i <= events.len(),
                self.settings() == old(self).settings(),
                self.current() == state_after(
                    old(self).settings(),
                    old(self).current(),
                    events@.take(i as int),
                ),
                actions@ == actions_after(
                    old(self).settings(),
                    old(self).current(),
                    events@.take(i as int),
                ),
            decreases events.len() - i,
        {
            let action = self.step(events[i]);
            proof {
                let done = events@.take(i as int);
                let more = events@.take(i + 1);
                assert(more.drop_last() == done);
                assert(more.last() == events@[i as int]);
                assert forall|j: int| 0 <= j < i implies #[trigger] more.take(j + 1) == done.take(
                    j + 1,
                ) by {}
                assert(more.take(i + 1) == more);
            }
            actions.push(action);
            i += 1;
        }
        proof {
            assert(events@.take(i as int) == events@);
        }
        actions
    }
}

/// Watching the battery: takes in a report in `Monitoring`.
pub fn monitor(settling: bool, event: Event) -> (next: OrchestratorState)
    ensures
        next == after_monitoring(settling, event),
{
    match event {
        Event::Battery(BatteryState::Discharging) => if settling {
            OrchestratorState::Discharging { peer_online: false }
        } else {
            OrchestratorState::Monitoring { settling: true }
        },
        _ => OrchestratorState::Monitoring { settling: false },
    }
}

/// The battery is confirmed discharging: takes in a report in `Discharging`.
pub fn state_discharging(peer_online: bool, event: Event) -> (next: OrchestratorState)
    ensures
        next == after_discharging(peer_online, event),
{
    if peer_online {
        match event {
            Event::Battery(BatteryState::Discharging) => OrchestratorState::AwaitingPeerDecision,
            _ => OrchestratorState::Monitoring { settling: false },
        }
    } else {
        match event {
            Event::Peer(ReachabilityState::Online) => OrchestratorState::Discharging {
                peer_online: true,
            },
            Event::Peer(ReachabilityState::Offline) => OrchestratorState::OfflineRecovery {
                stage: Recovery::PeerUnreachable,
            },
            _ => OrchestratorState::Discharging { peer_online: false },
        }
    }
}

/// The peer has been notified: takes in a report in `AwaitingPeerDecision`.
pub fn await_decision(config: &ClientConfig, event: Event) -> (next: OrchestratorState)
    ensures
        next == after_awaiting(*config, event),
{
    match event {
        Event::Decision(decision) => if decision.is_shutdown() && config.confirm_attempts > 0 {
            OrchestratorState::ConfirmingShutdown { decision, polls: 0 }
        } else {
            OrchestratorState::WaitingForPower
        },
        _ => OrchestratorState::WaitingForPower,
    }
}

/// The peer is going down: takes in a report in `ConfirmingShutdown`.
pub fn confirm_shutdown(
    config: &ClientConfig,
    decision: PeerDecision,
    polls: u32,
    event: Event,
) -> (next: OrchestratorState)
    ensures
        next == after_confirming(*config, decision, polls, event),
{
    match event {
        Event::Peer(ReachabilityState::Offline) => OrchestratorState::WaitingForPower,
        _ => if config.confirm_attempts > 0 && polls < config.confirm_attempts - 1 {
            OrchestratorState::ConfirmingShutdown { decision, polls: polls + 1 }
        } else {
            OrchestratorState::WaitingForPower
        },
    }
}

/// The outage is dealt with: takes in a report in `WaitingForPower`.
pub fn wait_for_power(event: Event) -> (next: OrchestratorState)
    ensures
        next == after_waiting(event),
{
    match event {
        Event::Battery(BatteryState::Discharging) => OrchestratorState::WaitingForPower,
        Event::Battery(_) => OrchestratorState::OfflineRecovery { stage: Recovery::PowerRestored },
        _ => OrchestratorState::WaitingForPower,
    }
}

/// Bringing the peer back: takes in a report in `OfflineRecovery`.
pub fn offline(config: &ClientConfig, stage: Recovery, event: Event) -> (next: OrchestratorState)
    ensures
        next == after_recovery(*config, stage, event),
{
    match (stage, event) {
        (Recovery::PowerRestored, Event::Peer(peer)) => {
            if wake_the_pc(config, peer) {
                OrchestratorState::OfflineRecovery { stage: Recovery::Waking }
            } else {
                OrchestratorState::Monitoring { settling: false }
            }
        },
        _ => OrchestratorState::Monitoring { settling: false },
    }
}

/// Whether the peer is woken, power having just been restored: the settings
/// must say so, and the peer must be offline.
pub fn wake_the_pc(config: &ClientConfig, peer: ReachabilityState) -> (wake: bool)
    ensures
        wake == config.wakes(peer),
{
    config.wake_on_return && match peer {
        ReachabilityState::Offline => true,
        ReachabilityState::Online => false,
    }
}

/// The transition function, executable.
pub fn transition(config: &ClientConfig, state: OrchestratorState, event: Event) -> (next:
    OrchestratorState)
    ensures
        next == next_state(*config, state, event),
{
    match state {
        OrchestratorState::Monitoring { settling } => monitor(settling, event),
        OrchestratorState::Discharging { peer_online } => state_discharging(peer_online, event),
        OrchestratorState::AwaitingPeerDecision => await_decision(config, event),
        OrchestratorState::ConfirmingShutdown { decision, polls } => confirm_shutdown(
            config,
            decision,
            polls,
            event,
        ),
        OrchestratorState::WaitingForPower => wait_for_power(event),
        OrchestratorState::OfflineRecovery { stage } => offline(config, stage, event),
    }
}

/// The action that `state` waits for, executable.
pub fn pending_action(config: &ClientConfig, state: OrchestratorState) -> (action: Action)
    ensures
        action == action_for(*config, state),
{
    match state {
        OrchestratorState::Monitoring { settling: true } => Action::ReadBattery {
            delay: config.default_action_delay,
        },
        OrchestratorState::Monitoring { settling: false } => Action::ReadBattery {
            delay: config.poll_interval,
        },
        OrchestratorState::Discharging { peer_online: true } => Action::ReadBattery {
            delay: config.poll_interval,
        },
        OrchestratorState::Discharging { peer_online: false } => Action::ProbePeer { delay: 0 },
        OrchestratorState::AwaitingPeerDecision => Action::Notify {
            request: config.notify_request(),
        },
        OrchestratorState::ConfirmingShutdown { .. } => Action::ProbePeer {
            delay: config.default_action_delay,
        },
        OrchestratorState::WaitingForPower => Action::ReadBattery { delay: config.poll_interval },
        OrchestratorState::OfflineRecovery { stage } => match stage {
            Recovery::PeerUnreachable => Action::ProbePeer { delay: config.poll_interval },
            Recovery::PowerRestored => Action::ProbePeer { delay: 0 },
            Recovery::Waking => Action::SendWake { delay: config.default_delay as u64 },
        },
    }
}

} // verus!
