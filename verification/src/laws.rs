//! What holds of every run of the orchestrator, whatever the driver reports.

use vstd::prelude::*;
use crate::config::ClientConfig;
use crate::notifier::{NotifyRequest, PeerDecision};
use crate::orchestrator::{
    action_for, actions_after, initial_state, next_state, state_after, Action, Event,
    OrchestratorState, Recovery,
};
use crate::probe::{BatteryState, ReachabilityState};

verus! {

/// A run can be cut anywhere: the state after the first `i + 1` reports is
/// the successor of the state after the first `i`.
pub proof fn lemma_state_after_step(
    config: ClientConfig,
    start: OrchestratorState,
    events: Seq<Event>,
    i: int,
)
    requires
        0 <= i < events.len(),
    ensures
        state_after(config, start, events.take(i + 1)) == next_state(
            config,
            state_after(config, start, events.take(i)),
            events[i],
        ),
{
    assert(events.take(i + 1).drop_last() == events.take(i));
}

/// Debounce. Whatever is reported, the orchestrator enters `Discharging` only
/// on the second of two `Discharging` reads in a row, the second of which it
/// asked for with the settle delay. One `Discharging` read between other
/// reports never gets it there.
pub proof fn lemma_discharging_needs_two_reads(config: ClientConfig, events: Seq<Event>, i: int)
    requires
        0 <= i < events.len(),
        !(state_after(config, initial_state(), events.take(i)) is Discharging),
        state_after(config, initial_state(), events.take(i + 1)) is Discharging,
    ensures
        i >= 1,
        events[i - 1].discharging_read(),
        events[i].discharging_read(),
        state_after(config, initial_state(), events.take(i - 1)) == (OrchestratorState::Monitoring {
            settling: false,
        }),
        state_after(config, initial_state(), events.take(i)) == (OrchestratorState::Monitoring {
            settling: true,
        }),
        actions_after(config, initial_state(), events)[i - 1] == (Action::ReadBattery {
            delay: config.default_action_delay,
        }),
        state_after(config, initial_state(), events.take(i + 1)) == (
        OrchestratorState::Discharging { peer_online: false }),
{
    lemma_state_after_step(config, initial_state(), events, i);
    if i == 0 {
        assert(events.take(0).len() == 0);
    } else {
        lemma_state_after_step(config, initial_state(), events, i - 1);
    }
}

/// The reports that a sequence of battery reads amounts to.
pub open spec fn battery_reports(readings: Seq<BatteryState>) -> Seq<Event> {
    Seq::new(readings.len(), |i: int| Event::Battery(readings[i]))
}

/// Blips are ignored. For every sequence of battery reads in which no two
/// `Discharging` reads stand side by side, the orchestrator stays in
/// `Monitoring` and asks for nothing but battery reads: the peer is neither
/// probed nor notified.
pub proof fn lemma_blips_stay_in_monitoring(config: ClientConfig, readings: Seq<BatteryState>)
    requires
        forall|i: int|
            0 < i < readings.len() ==> !(readings[i - 1].discharging()
                && #[trigger] readings[i].discharging()),
    ensures
        state_after(config, initial_state(), battery_reports(readings))
            == (OrchestratorState::Monitoring {
            settling: readings.len() > 0 && readings.last().discharging(),
        }),
        forall|j: int|
            0 <= j < readings.len() ==> #[trigger] actions_after(
                config,
                initial_state(),
                battery_reports(readings),
            )[j] is ReadBattery,
    decreases readings.len(),
{
    let events = battery_reports(readings);
    if readings.len() > 0 {
        let front = readings.drop_last();
        assert forall|i: int| 0 < i < front.len() implies !(front[i - 1].discharging()
            && #[trigger] front[i].discharging()) by {
            assert(front[i] == readings[i]);
            assert(!(readings[i - 1].discharging() && readings[i].discharging()));
        }
        lemma_blips_stay_in_monitoring(config, front);
        assert(events.drop_last() == battery_reports(front));
        assert(events.last() == Event::Battery(readings.last()));
        if readings.len() > 1 {
            let last = readings.len() - 1;
            assert(!(readings[last - 1].discharging() && readings[last].discharging()));
            assert(front.last() == readings[last - 1]);
        }
        assert forall|j: int| 0 <= j < readings.len() implies #[trigger] actions_after(
            config,
            initial_state(),
            events,
        )[j] is ReadBattery by {
            if j < readings.len() - 1 {
                assert(events.take(j + 1) == battery_reports(front).take(j + 1));
                assert(actions_after(config, initial_state(), battery_reports(front))[j]
                     is ReadBattery);
            } else {
                assert(events.take(j + 1) == events);
            }
        }
    }
}

/// The peer is notified only after a third `Discharging` read: the state
/// before `AwaitingPeerDecision` is `Discharging` with the peer found online,
/// and the report that leads there is a `Discharging` read.
pub proof fn lemma_notification_needs_recheck(
    config: ClientConfig,
    state: OrchestratorState,
    event: Event,
)
    requires
        next_state(config, state, event) == OrchestratorState::AwaitingPeerDecision,
    ensures
        state == (OrchestratorState::Discharging { peer_online: true }),
        event.discharging_read(),
{
}

/// A re-read that does not find the host discharging calls the notification
/// off: whatever is reported at the re-read but a `Discharging` read, a read
/// that failed too, the orchestrator returns to `Monitoring` with no debounce
/// pending. Two more `Discharging` reads, a probe and a re-read come before
/// the peer is notified.
pub proof fn lemma_failed_recheck_returns_to_monitoring(config: ClientConfig, event: Event)
    requires
        !event.discharging_read(),
    ensures
        next_state(config, OrchestratorState::Discharging { peer_online: true }, event)
            == initial_state(),
        next_state(
            config,
            OrchestratorState::Discharging { peer_online: true },
            Event::BatteryUnavailable,
        ) == initial_state(),
        action_for(config, initial_state()) == (Action::ReadBattery {
            delay: config.poll_interval,
        }),
{
}

/// When the peer answers `Ignore`, the orchestrator waits for power. For as
/// long as no battery read finds power back it stays in `WaitingForPower` and
/// asks for nothing but the next battery read: no wake packet is sent.
pub proof fn lemma_ignore_waits_for_power(config: ClientConfig, events: Seq<Event>)
    requires
        forall|j: int| 0 <= j < events.len() ==> !(#[trigger] events[j]).power_read(),
    ensures
        next_state(
            config,
            OrchestratorState::AwaitingPeerDecision,
            Event::Decision(PeerDecision::Ignore),
        ) == OrchestratorState::WaitingForPower,
        state_after(config, OrchestratorState::WaitingForPower, events)
            == OrchestratorState::WaitingForPower,
        forall|j: int|
            0 <= j < events.len() ==> #[trigger] actions_after(
                config,
                OrchestratorState::WaitingForPower,
                events,
            )[j] == (Action::ReadBattery { delay: config.poll_interval }),
    decreases events.len(),
{
    if events.len() > 0 {
        let front = events.drop_last();
        lemma_ignore_waits_for_power(config, front);
        assert(!events[events.len() - 1].power_read());
        assert forall|j: int| 0 <= j < events.len() implies #[trigger] actions_after(
            config,
            OrchestratorState::WaitingForPower,
            events,
        )[j] == (Action::ReadBattery { delay: config.poll_interval }) by {
            if j < events.len() - 1 {
                assert(events.take(j + 1) == front.take(j + 1));
                assert(actions_after(config, OrchestratorState::WaitingForPower, front)[j] == (
                Action::ReadBattery { delay: config.poll_interval }));
            } else {
                assert(events.take(j + 1) == events);
            }
        }
    }
}

/// A reply that is not recognized, like a notification that failed, leads
/// straight to `WaitingForPower`: the next action is a battery read, and no
/// reachability poll is spent on confirming a shutdown.
pub proof fn lemma_unrecognized_skips_confirmation(config: ClientConfig, event: Event)
    requires
        event == (Event::Decision(PeerDecision::Unrecognized)) || event
            == Event::NotifyFailed,
    ensures
        next_state(config, OrchestratorState::AwaitingPeerDecision, event)
            == OrchestratorState::WaitingForPower,
        action_for(config, next_state(config, OrchestratorState::AwaitingPeerDecision, event))
            == (Action::ReadBattery { delay: config.poll_interval }),
{
}

/// The same of the reply itself, whatever the peer was asked: when the first
/// word of its reply is none of the four known words, the orchestrator goes
/// straight to `WaitingForPower` and asks for a battery read. No reply is
/// taken for an action that it does not name.
pub proof fn lemma_unrecognized_reply_skips_confirmation(
    config: ClientConfig,
    request: NotifyRequest,
    reply: String,
)
    requires
        PeerDecision::of_reply(reply@) == PeerDecision::Unrecognized,
    ensures
        Event::of_notification(request, Ok::<String, String>(reply)) == Event::Decision(
            PeerDecision::Unrecognized,
        ),
        next_state(
            config,
            OrchestratorState::AwaitingPeerDecision,
            Event::of_notification(request, Ok::<String, String>(reply)),
        ) == OrchestratorState::WaitingForPower,
        action_for(
            config,
            next_state(
                config,
                OrchestratorState::AwaitingPeerDecision,
                Event::of_notification(request, Ok::<String, String>(reply)),
            ),
        ) == (Action::ReadBattery { delay: config.poll_interval }),
{
}

/// While a shutdown is being confirmed, `polls` counts the reports taken in
/// since the peer's decision: it starts at zero, grows by one with every
/// report that keeps the state, and stays below the configured number of
/// attempts.
pub proof fn lemma_confirmation_counts(
    config: ClientConfig,
    state: OrchestratorState,
    event: Event,
)
    requires
        next_state(config, state, event) is ConfirmingShutdown,
    ensures
        next_state(config, state, event)->polls < config.confirm_attempts,
        state is ConfirmingShutdown || state is AwaitingPeerDecision,
        state is AwaitingPeerDecision ==> next_state(config, state, event)->polls == 0 && event
            == (Event::Decision(next_state(config, state, event)->decision)),
        state is ConfirmingShutdown ==> next_state(config, state, event)->polls == state->polls
            + 1 && next_state(config, state, event)->decision == state->decision,
{
}

/// Confirming a shutdown is bounded, whatever is reported. Wherever a run
/// finds the orchestrator in `ConfirmingShutdown` with `polls` at `p`, the
/// peer's decision came `p + 1` reports earlier and the orchestrator has been
/// confirming since: it has asked for `p + 1` reachability polls, which is at
/// most the configured number of attempts.
pub proof fn lemma_confirmation_is_bounded(config: ClientConfig, events: Seq<Event>, k: int)
    requires
        0 <= k <= events.len(),
        state_after(config, initial_state(), events.take(k)) is ConfirmingShutdown,
    ensures
        state_after(config, initial_state(), events.take(k))->polls + 1 <= k,
        state_after(config, initial_state(), events.take(k))->polls + 1 <= config.confirm_attempts,
        state_after(
            config,
            initial_state(),
            events.take(k - state_after(config, initial_state(), events.take(k))->polls - 1),
        ) == OrchestratorState::AwaitingPeerDecision,
        forall|j: int|
            k - state_after(config, initial_state(), events.take(k))->polls <= j <= k ==> (
            #[trigger] state_after(config, initial_state(), events.take(j))) is ConfirmingShutdown,
    decreases k,
{
    if k == 0 {
        assert(events.take(0).len() == 0);
    } else {
        let before = state_after(config, initial_state(), events.take(k - 1));
        lemma_state_after_step(config, initial_state(), events, k - 1);
        lemma_confirmation_counts(config, before, events[k - 1]);
        if before is ConfirmingShutdown {
            lemma_confirmation_is_bounded(config, events, k - 1);
        }
    }
}

/// A run can be taken from its second report on: the state after a report
/// and then `events` is the state after `events` from the report's successor.
pub proof fn lemma_state_after_first(
    config: ClientConfig,
    start: OrchestratorState,
    first: Event,
    events: Seq<Event>,
)
    ensures
        state_after(config, start, seq![first] + events) == state_after(
            config,
            next_state(config, start, first),
            events,
        ),
    decreases events.len(),
{
    let run = seq![first] + events;
    if events.len() == 0 {
        assert(run.drop_last().len() == 0);
        assert(run.last() == first);
        assert(state_after(config, start, run.drop_last()) == start);
    } else {
        lemma_state_after_first(config, start, first, events.drop_last());
        assert(run.drop_last() == seq![first] + events.drop_last());
        assert(run.last() == events.last());
    }
}

/// With every reachability poll answered `Online`, the state counts the
/// answers until the configured number of attempts is spent.
proof fn lemma_online_answers_are_counted(
    config: ClientConfig,
    decision: PeerDecision,
    events: Seq<Event>,
)
    requires
        decision.takes_peer_down(),
        forall|j: int|
            0 <= j < events.len() ==> #[trigger] events[j] == Event::Peer(
                ReachabilityState::Online,
            ),
    ensures
        events.len() < config.confirm_attempts ==> state_after(
            config,
            next_state(config, OrchestratorState::AwaitingPeerDecision, Event::Decision(decision)),
            events,
        ) == (OrchestratorState::ConfirmingShutdown { decision, polls: events.len() as u32 }),
        events.len() >= config.confirm_attempts ==> state_after(
            config,
            next_state(config, OrchestratorState::AwaitingPeerDecision, Event::Decision(decision)),
            events,
        ) == OrchestratorState::WaitingForPower,
    decreases events.len(),
{
    if events.len() > 0 {
        lemma_online_answers_are_counted(config, decision, events.drop_last());
        assert(events[events.len() - 1] == Event::Peer(ReachabilityState::Online));
    }
}

/// The reports of a peer that decides to go down and then stays online: the
/// decision, then `answers` times `Online`.
pub open spec fn peer_stays_online(decision: PeerDecision, answers: nat) -> Seq<Event> {
    seq![Event::Decision(decision)] + Seq::new(
        answers,
        |i: int| Event::Peer(ReachabilityState::Online),
    )
}

/// However long the peer stays online, confirming ends. When the peer has
/// decided to go down and then answers every reachability poll, the
/// orchestrator asks for a poll after report `i` if and only if `i` is below
/// the configured number of attempts: it polls that many times and no more.
/// After that it waits for power.
pub proof fn lemma_confirmation_gives_up(config: ClientConfig, decision: PeerDecision, answers: nat)
    requires
        decision.takes_peer_down(),
    ensures
        forall|i: int|
            0 <= i <= answers ==> (#[trigger] actions_after(
                config,
                OrchestratorState::AwaitingPeerDecision,
                peer_stays_online(decision, answers),
            )[i] is ProbePeer <==> i < config.confirm_attempts),
        answers < config.confirm_attempts ==> state_after(
            config,
            OrchestratorState::AwaitingPeerDecision,
            peer_stays_online(decision, answers),
        ) == (OrchestratorState::ConfirmingShutdown { decision, polls: answers as u32 }),
        answers >= config.confirm_attempts ==> state_after(
            config,
            OrchestratorState::AwaitingPeerDecision,
            peer_stays_online(decision, answers),
        ) == OrchestratorState::WaitingForPower,
{
    let first = Event::Decision(decision);
    let online = Seq::new(answers, |i: int| Event::Peer(ReachabilityState::Online));
    let run = peer_stays_online(decision, answers);
    let start = OrchestratorState::AwaitingPeerDecision;
    assert forall|i: int| 0 <= i <= answers implies (#[trigger] actions_after(config, start, run)[i]
         is ProbePeer <==> i < config.confirm_attempts) by {
        assert(run.take(i + 1) == seq![first] + online.take(i));
        lemma_state_after_first(config, start, first, online.take(i));
        lemma_online_answers_are_counted(config, decision, online.take(i));
    }
    lemma_state_after_first(config, start, first, online);
    lemma_online_answers_are_counted(config, decision, online);
}

/// A wake packet is asked for if and only if power has just been confirmed
/// restored, the settings say to wake the peer on return, and the peer is
/// reported offline. Power counts as confirmed restored only in the state
/// that follows a battery read, taken while waiting for power, that found the
/// host not discharging.
pub proof fn lemma_wake_iff_restored_and_offline(
    config: ClientConfig,
    state: OrchestratorState,
    event: Event,
)
    ensures
        action_for(config, next_state(config, state, event)) is SendWake <==> (state == (
        OrchestratorState::OfflineRecovery { stage: Recovery::PowerRestored })
            && config.wake_on_return && event == (Event::Peer(ReachabilityState::Offline))),
        next_state(config, state, event) == (OrchestratorState::OfflineRecovery {
            stage: Recovery::PowerRestored,
        }) <==> (state == OrchestratorState::WaitingForPower && event.power_read()),
{
}

/// The same over a whole run: the action that follows report `i` is a wake
/// packet if and only if report `i` finds the peer offline, report `i - 1` is
/// the battery read that found power back while the orchestrator was waiting
/// for it, and the settings say to wake the peer on return.
pub proof fn lemma_wake_only_on_return(config: ClientConfig, events: Seq<Event>, i: int)
    requires
        0 <= i < events.len(),
    ensures
        actions_after(config, initial_state(), events)[i] is SendWake <==> (i >= 1
            && config.wake_on_return && events[i] == Event::Peer(ReachabilityState::Offline)
            && events[i - 1].power_read() && state_after(
            config,
            initial_state(),
            events.take(i - 1),
        ) == OrchestratorState::WaitingForPower),
{
    let start = initial_state();
    lemma_state_after_step(config, start, events, i);
    lemma_wake_iff_restored_and_offline(
        config,
        state_after(config, start, events.take(i)),
        events[i],
    );
    if i == 0 {
        assert(events.take(0).len() == 0);
    } else {
        lemma_state_after_step(config, start, events, i - 1);
        lemma_wake_iff_restored_and_offline(
            config,
            state_after(config, start, events.take(i - 1)),
            events[i - 1],
        );
    }
}

} // verus!
