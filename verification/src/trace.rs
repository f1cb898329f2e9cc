//! The poll loop replayed over sequences of events, and what holds of every
//! such run.

use vstd::prelude::*;
use crate::config::AppConfigView;
use crate::cycle::plan_cycle;
use crate::error::CycleError;
use crate::poll_loop::{
    initial_state, next, round_outcome, round_start, round_step, ActionView, EventView,
    LoopState,
};

verus! {

/// Feeds `events` to the loop one after the other, starting in `state`.
/// Gives the state reached and all actions called for, in order.
pub open spec fn replay(config: AppConfigView, state: LoopState, events: Seq<EventView>) -> (
    LoopState,
    Seq<ActionView>,
)
    decreases events.len(),
{
    if events.len() == 0 {
        (state, Seq::empty())
    } else {
        let (reached, earlier) = replay(config, state, events.drop_last());
        let (end, latest) = next(config, reached, events.last());
        (end, earlier + latest)
    }
}

/// The state in which event `k` of a run from the initial state arrives.
pub open spec fn state_before(config: AppConfigView, events: Seq<EventView>, k: int) -> LoopState {
    replay(config, initial_state(), events.take(k)).0
}

/// `event`, arriving in `state`, ends the round under way.
pub open spec fn ends_round(config: AppConfigView, state: LoopState, event: EventView) -> bool {
    &&& state matches LoopState::Polling(round)
    &&& !(event is Interrupt)
    &&& round_outcome(round_step(round, config.device_name, event).0) is Some
}

/// `event`, arriving in `state`, finishes the poll cycle under way.
pub open spec fn finishes_check(config: AppConfigView, state: LoopState, event: EventView) -> bool {
    &&& state matches LoopState::Polling(round)
    &&& !(event is Interrupt)
    &&& !(round.check is Finished)
    &&& round_step(round, config.device_name, event).0.check is Finished
}

/// `events` are exactly one round, first event to last: the round begins in
/// the initial state, ends with the last event and with none before it.
pub open spec fn is_one_round(config: AppConfigView, events: Seq<EventView>) -> bool {
    &&& events.len() > 0
    &&& forall|k: int|
        0 <= k < events.len() - 1 ==> !ends_round(
            config,
            #[trigger] state_before(config, events, k),
            events[k],
        )
    &&& ends_round(
        config,
        state_before(config, events, events.len() - 1),
        events.last(),
    )
}

/// A run over one more event is the run so far, then one step.
pub proof fn lemma_replay_push(
    config: AppConfigView,
    state: LoopState,
    events: Seq<EventView>,
    event: EventView,
)
    ensures
        replay(config, state, events.push(event)) == ({
            let (reached, earlier) = replay(config, state, events);
            let (end, latest) = next(config, reached, event);
            (end, earlier + latest)
        }),
{
    assert(events.push(event).drop_last() =~= events);
}

/// A run over two sequences in a row is the run over the first, continued
/// by the run over the second from where the first ended.
pub proof fn lemma_replay_concat(
    config: AppConfigView,
    state: LoopState,
    first: Seq<EventView>,
    second: Seq<EventView>,
)
    ensures
        replay(config, state, first + second) == ({
            let (reached, earlier) = replay(config, state, first);
            let (end, later) = replay(config, reached, second);
            (end, earlier + later)
        }),
    decreases second.len(),
{
    if second.len() > 0 {
        lemma_replay_concat(config, state, first, second.drop_last());
        assert((first + second).drop_last() =~= first + second.drop_last());
    }
}

/// Once the loop is shutting down it stays so and calls for nothing more.
pub proof fn lemma_shutting_down_is_final(config: AppConfigView, events: Seq<EventView>)
    ensures
        replay(config, LoopState::ShuttingDown, events) == (
            LoopState::ShuttingDown,
            Seq::<ActionView>::empty(),
        ),
    decreases events.len(),
{
    if events.len() > 0 {
        lemma_shutting_down_is_final(config, events.drop_last());
    }
}

/// Without an interrupt the loop keeps polling and neither disconnects nor
/// exits.
pub proof fn lemma_polling_until_interrupt(
    config: AppConfigView,
    state: LoopState,
    events: Seq<EventView>,
)
    requires
        state is Polling,
        forall|i: int| 0 <= i < events.len() ==> !(#[trigger] events[i] is Interrupt),
    ensures
        replay(config, state, events).0 is Polling,
        forall|k: int|
            0 <= k < replay(config, state, events).1.len() ==> {
                let action = #[trigger] replay(config, state, events).1[k];
                !(action is Disconnect) && !(action is Exit)
            },
    decreases events.len(),
{
    if events.len() > 0 {
        lemma_polling_until_interrupt(config, state, events.drop_last());
    }
}

/// An interrupt, whenever it arrives, ends the loop: the broker session is
/// closed once, the process exits, and nothing else is called for from then
/// on, so no further round starts. Before the interrupt no disconnect and
/// no exit was called for.
pub proof fn lemma_interrupt_stops_loop(
    config: AppConfigView,
    before: Seq<EventView>,
    after: Seq<EventView>,
)
    requires
        forall|i: int| 0 <= i < before.len() ==> !(#[trigger] before[i] is Interrupt),
    ensures
        ({
            let (_, earlier) = replay(config, initial_state(), before);
            let (end, actions) = replay(
                config,
                initial_state(),
                before + seq![EventView::Interrupt] + after,
            );
            &&& end is ShuttingDown
            &&& actions == earlier + seq![ActionView::Disconnect, ActionView::Exit]
            &&& forall|k: int|
                0 <= k < earlier.len() ==> !(#[trigger] earlier[k] is Disconnect) && !(
                earlier[k] is Exit)
        }),
{
    let start = initial_state();
    lemma_polling_until_interrupt(config, start, before);
    lemma_replay_push(config, start, before, EventView::Interrupt);
    assert(before.push(EventView::Interrupt) =~= before + seq![EventView::Interrupt]);
    lemma_replay_concat(config, start, before + seq![EventView::Interrupt], after);
    lemma_shutting_down_is_final(config, after);
}

/// The end of a round, however its poll cycle ended, puts the loop back
/// into its initial state and starts the next round.
pub proof fn lemma_round_end_starts_next(
    config: AppConfigView,
    state: LoopState,
    event: EventView,
)
    requires
        ends_round(config, state, event),
    ensures
        ({
            let (end, actions) = next(config, state, event);
            let round = round_step(state->Polling_0, config.device_name, event);
            &&& end == initial_state()
            &&& actions == round.1 + seq![
                ActionView::RoundFinished(round_outcome(round.0)->0),
            ] + round_start(config)
        }),
{
}

/// A whole round leaves the loop where it began.
pub proof fn lemma_round_returns_to_start(config: AppConfigView, events: Seq<EventView>)
    requires
        is_one_round(config, events),
    ensures
        replay(config, initial_state(), events).0 == initial_state(),
{
}

/// The loop never rests in a finished round: while it polls, the timer or
/// the poll cycle of the round under way is still pending.
pub proof fn lemma_round_at_rest_is_pending(config: AppConfigView, events: Seq<EventView>)
    ensures
        replay(config, initial_state(), events).0 matches LoopState::Polling(round)
            ==> round_outcome(round) is None,
    decreases events.len(),
{
    if events.len() > 0 {
        lemma_round_at_rest_is_pending(config, events.drop_last());
    }
}

/// Nothing is carried from one round into the next. After any events that
/// end at a round boundary, the loop answers further events exactly as it
/// would from a fresh start. So a device state that was published in one
/// round is published again, unchanged, when the next round sees it.
pub proof fn lemma_every_round_starts_afresh(
    config: AppConfigView,
    before: Seq<EventView>,
    after: Seq<EventView>,
)
    requires
        replay(config, initial_state(), before).0 == initial_state(),
    ensures
        ({
            let (_, earlier) = replay(config, initial_state(), before);
            let (resumed, later) = replay(config, initial_state(), after);
            replay(config, initial_state(), before + after) == (resumed, earlier + later)
        }),
{
    lemma_replay_concat(config, initial_state(), before, after);
}

/// The two events of a round whose fetch fails, in either order.
pub open spec fn failed_fetch_round(timer_first: bool) -> Seq<EventView> {
    if timer_first {
        seq![EventView::TimerElapsed, EventView::FetchFailed]
    } else {
        seq![EventView::FetchFailed, EventView::TimerElapsed]
    }
}

/// A failed fetch costs its own round and no other. The round ends when its
/// timer has fired, the next round starts, and from there the loop goes on
/// exactly as it would have from a fresh start.
pub proof fn lemma_fetch_failure_is_isolated(
    config: AppConfigView,
    before: Seq<EventView>,
    timer_first: bool,
    after: Seq<EventView>,
)
    requires
        replay(config, initial_state(), before).0 == initial_state(),
    ensures
        ({
            let (_, earlier) = replay(config, initial_state(), before);
            let (resumed, later) = replay(config, initial_state(), after);
            let (end, actions) = replay(
                config,
                initial_state(),
                before + failed_fetch_round(timer_first) + after,
            );
            &&& replay(
                config,
                initial_state(),
                before + failed_fetch_round(timer_first),
            ).0 == initial_state()
            &&& end == resumed
            &&& actions == earlier + seq![
                ActionView::RoundFinished(Err(CycleError::Fetch)),
            ] + round_start(config) + later
        }),
{
    let start = initial_state();
    let failed = failed_fetch_round(timer_first);
    let report = seq![ActionView::RoundFinished(Err(CycleError::Fetch))] + round_start(config);
    assert(replay(config, start, failed) == (start, report)) by {
        let first = failed[0];
        assert(failed.drop_last() =~= seq![first]);
        assert(seq![first].drop_last() =~= Seq::<EventView>::empty());
        assert(replay(config, start, Seq::<EventView>::empty()).0 == start);
        let one = replay(config, start, seq![first]);
        assert(one.1 =~= Seq::<ActionView>::empty());
        assert(replay(config, start, failed).1 =~= report);
    }
    lemma_replay_concat(config, start, before, failed);
    lemma_replay_concat(config, start, before + failed, after);
}

/// How many of `actions` hand a message to the broker.
pub open spec fn publish_count(actions: Seq<ActionView>) -> nat
    decreases actions.len(),
{
    if actions.len() == 0 {
        0
    } else {
        publish_count(actions.drop_last()) + if actions.last() is Publish {
            1nat
        } else {
            0nat
        }
    }
}

/// A poll cycle is under way and waits for the device list.
pub open spec fn is_fetching(state: LoopState) -> bool {
    state matches LoopState::Polling(round) && round.check is Fetching
}

/// Event `k` of a run is the device list that the poll cycle under way was
/// waiting for.
pub open spec fn answers_fetch(config: AppConfigView, events: Seq<EventView>, k: int) -> bool {
    is_fetching(state_before(config, events, k)) && events[k] is DevicesFetched
}

/// How many messages a device list gives rise to: one if it holds the
/// tracked device and its state can be serialized, none otherwise.
pub open spec fn message_count(config: AppConfigView, event: EventView) -> nat {
    match event {
        EventView::DevicesFetched(devices) => match plan_cycle(devices, config.device_name) {
            Ok(Some(_)) => 1,
            _ => 0,
        },
        _ => 0,
    }
}

/// Counting messages in two lists in a row adds up.
pub proof fn lemma_publish_count_concat(first: Seq<ActionView>, second: Seq<ActionView>)
    ensures
        publish_count(first + second) == publish_count(first) + publish_count(second),
    decreases second.len(),
{
    if second.len() == 0 {
    } else {
        lemma_publish_count_concat(first, second.drop_last());
        assert((first + second).drop_last() =~= first + second.drop_last());
    }
}

/// A single action counts as a message exactly when it is one.
proof fn lemma_publish_count_single(action: ActionView)
    ensures
        publish_count(seq![action]) == (if action is Publish {
            1nat
        } else {
            0nat
        }),
{
    assert(seq![action].drop_last() =~= Seq::<ActionView>::empty());
    assert(publish_count(Seq::<ActionView>::empty()) == 0);
}

/// One step calls for a message exactly when it takes a device list that
/// the poll cycle was waiting for, and that list gives rise to one.
proof fn lemma_step_publish_count(config: AppConfigView, state: LoopState, event: EventView)
    ensures
        publish_count(next(config, state, event).1) == (if is_fetching(state) {
            message_count(config, event)
        } else {
            0
        }),
{
    let actions = next(config, state, event).1;
    if let LoopState::Polling(round) = state {
        if event is Interrupt {
            lemma_publish_count_single(ActionView::Disconnect);
            lemma_publish_count_single(ActionView::Exit);
            lemma_publish_count_concat(seq![ActionView::Disconnect], seq![ActionView::Exit]);
            assert(actions =~= seq![ActionView::Disconnect] + seq![ActionView::Exit]);
        } else {
            let (stepped, body) = round_step(round, config.device_name, event);
            if body.len() == 1 {
                lemma_publish_count_single(body[0]);
            }
            if let Some(result) = round_outcome(stepped) {
                let report = seq![ActionView::RoundFinished(result)];
                let timer = seq![ActionView::StartTimer { seconds: config.period_s }];
                let fetch = seq![ActionView::FetchDevices { network_id: config.network_id }];
                lemma_publish_count_single(report[0]);
                lemma_publish_count_single(timer[0]);
                lemma_publish_count_single(fetch[0]);
                lemma_publish_count_concat(body, report);
                lemma_publish_count_concat(body + report, timer);
                lemma_publish_count_concat(body + report + timer, fetch);
                assert(actions =~= body + report + timer + fetch);
            }
        }
    }
}

/// While a round is under way, the messages called for so far are those of
/// the one device list that its poll cycle has taken, if it has taken one.
proof fn lemma_round_messages(config: AppConfigView, events: Seq<EventView>, k: int)
    requires
        0 <= k <= events.len(),
        forall|i: int|
            0 <= i < k ==> !ends_round(
                config,
                #[trigger] state_before(config, events, i),
                events[i],
            ),
    ensures
        ({
            let sent = publish_count(replay(config, initial_state(), events.take(k)).1);
            &&& forall|i: int|
                0 <= i < k && #[trigger] answers_fetch(config, events, i) ==> sent
                    == message_count(config, events[i])
            &&& (forall|i: int| 0 <= i < k ==> !#[trigger] answers_fetch(config, events, i))
                ==> sent == 0
            &&& is_fetching(state_before(config, events, k)) ==> forall|i: int|
                0 <= i < k ==> !#[trigger] answers_fetch(config, events, i)
        }),
    decreases k,
{
    if k > 0 {
        lemma_round_messages(config, events, k - 1);
        let earlier = state_before(config, events, k - 1);
        let (_, sent_earlier) = replay(config, initial_state(), events.take(k - 1));
        assert(events.take(k).drop_last() =~= events.take(k - 1));
        let (_, latest) = next(config, earlier, events[k - 1]);
        lemma_publish_count_concat(sent_earlier, latest);
        lemma_step_publish_count(config, earlier, events[k - 1]);
        if answers_fetch(config, events, k - 1) {
            assert(forall|i: int|
                0 <= i < k - 1 ==> !#[trigger] answers_fetch(config, events, i));
        }
    }
}

/// A round calls for at most one message. If its poll cycle takes a device
/// list, the round calls for as many messages as that list gives rise to;
/// if it takes none, the round calls for none.
pub proof fn lemma_one_message_per_round(config: AppConfigView, events: Seq<EventView>)
    requires
        is_one_round(config, events),
    ensures
        ({
            let sent = publish_count(replay(config, initial_state(), events).1);
            &&& sent <= 1
            &&& forall|k: int|
                0 <= k < events.len() && #[trigger] answers_fetch(config, events, k) ==> sent
                    == message_count(config, events[k])
            &&& (forall|k: int|
                0 <= k < events.len() ==> !#[trigger] answers_fetch(config, events, k))
                ==> sent == 0
        }),
{
    let n = events.len() as int;
    lemma_round_messages(config, events, n - 1);
    let earlier = state_before(config, events, n - 1);
    let (_, sent_earlier) = replay(config, initial_state(), events.take(n - 1));
    let (_, latest) = next(config, earlier, events.last());
    lemma_publish_count_concat(sent_earlier, latest);
    lemma_step_publish_count(config, earlier, events.last());
}

/// While a round is under way, a timer marked as elapsed has fired in this
/// round and a poll cycle marked as finished has finished in this round.
proof fn lemma_round_progress(config: AppConfigView, events: Seq<EventView>, k: int)
    requires
        0 <= k <= events.len(),
        forall|i: int|
            0 <= i < k ==> !ends_round(
                config,
                #[trigger] state_before(config, events, i),
                events[i],
            ),
    ensures
        state_before(config, events, k) matches LoopState::Polling(round) ==> {
            &&& round.timer_elapsed ==> exists|i: int|
                0 <= i < k && #[trigger] events[i] is TimerElapsed
            &&& round.check is Finished ==> exists|j: int|
                0 <= j < k && finishes_check(
                    config,
                    #[trigger] state_before(config, events, j),
                    events[j],
                )
        },
    decreases k,
{
    if k > 0 {
        lemma_round_progress(config, events, k - 1);
        assert(events.take(k).drop_last() =~= events.take(k - 1));
    }
}

/// A round lasts as long as the later of its two halves. Let the events of
/// one round arrive at the times `times`, and let the timer fire no earlier
/// than `period` after the round began at time zero. Then the poll cycle
/// has finished within the round, and the round ends neither before
/// `period` nor before the time at which the poll cycle finished.
pub proof fn lemma_round_lasts_max_of_timer_and_check(
    config: AppConfigView,
    events: Seq<EventView>,
    times: Seq<nat>,
    period: nat,
)
    requires
        is_one_round(config, events),
        times.len() == events.len(),
        forall|a: int, b: int| 0 <= a <= b < times.len() ==> times[a] <= times[b],
        forall|i: int|
            0 <= i < events.len() && #[trigger] events[i] is TimerElapsed ==> times[i]
                >= period,
    ensures
        times.last() >= period,
        exists|j: int|
            0 <= j < events.len() && finishes_check(
                config,
                #[trigger] state_before(config, events, j),
                events[j],
            ) && times.last() >= times[j],
{
    let n = events.len() as int - 1;
    lemma_round_progress(config, events, n);
    let round = state_before(config, events, n)->Polling_0;
    if !round.timer_elapsed {
        assert(events[n] is TimerElapsed);
    }
    if !(round.check is Finished) {
        assert(finishes_check(config, state_before(config, events, n), events[n]));
    }
}

} // verus!
