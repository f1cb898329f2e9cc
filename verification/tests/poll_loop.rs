use presence_poller::config::AppConfig;
use presence_poller::device::Device;
use presence_poller::error::CycleError;
use presence_poller::message::Publication;
use presence_poller::poll_loop::{Action, CheckPhase, Event, LoopState, PollLoop, Round};

fn config() -> AppConfig {
    AppConfig {
        user_token: String::from("token"),
        network_id: String::from("net-1"),
        period_s: 5,
        device_name: String::from("phone"),
        mqtt_socket_addr: String::from("localhost:1883"),
    }
}

fn device(name: &str, connected: bool) -> Device {
    Device { display_name: String::from(name), connected }
}

fn round_start() -> Vec<Action> {
    vec![
        Action::StartTimer { seconds: 5 },
        Action::FetchDevices { network_id: String::from("net-1") },
    ]
}

fn phone_message(connected: bool) -> Publication {
    let text = if connected {
        "{\"device_name\":\"phone\",\"is_connected\":true}"
    } else {
        "{\"device_name\":\"phone\",\"is_connected\":false}"
    };
    Publication { topic: String::from("/home/shane"), payload: text.as_bytes().to_vec(), qos: 1 }
}

fn fresh() -> LoopState {
    LoopState::Polling(Round { timer_elapsed: false, check: CheckPhase::Fetching })
}

fn count_publishes(actions: &[Action]) -> usize {
    actions.iter().filter(|a| matches!(a, Action::Publish(_))).count()
}

fn count_warnings(actions: &[Action]) -> usize {
    actions.iter().filter(|a| matches!(a, Action::WarnUnknownDevice)).count()
}

#[test]
fn start_begins_the_first_round() {
    let (poll_loop, actions) = PollLoop::start(config());
    assert_eq!(poll_loop.config, config());
    assert_eq!(poll_loop.state, fresh());
    assert_eq!(actions, round_start());
    assert!(!poll_loop.is_shutting_down());
}

#[test]
fn scenario_phone_connected_publishes_once_within_one_period() {
    let (mut poll_loop, started) = PollLoop::start(config());
    assert_eq!(started, round_start());
    let mut all: Vec<Action> = Vec::new();
    all.extend(poll_loop.step(Event::DevicesFetched(vec![device("phone", true)])));
    assert_eq!(all, vec![Action::Publish(phone_message(true))]);
    all.extend(poll_loop.step(Event::Published));
    assert_eq!(count_publishes(&all), 1);
    let ended = poll_loop.step(Event::TimerElapsed);
    assert_eq!(
        ended,
        vec![
            Action::RoundFinished(Ok(())),
            Action::StartTimer { seconds: 5 },
            Action::FetchDevices { network_id: String::from("net-1") },
        ]
    );
    assert_eq!(poll_loop.state, fresh());
}

#[test]
fn scenario_unknown_device_warns_once_and_publishes_nothing() {
    let (mut poll_loop, _) = PollLoop::start(config());
    let mut all: Vec<Action> = Vec::new();
    all.extend(poll_loop.step(Event::DevicesFetched(vec![device("laptop", false)])));
    assert_eq!(all, vec![Action::WarnUnknownDevice]);
    all.extend(poll_loop.step(Event::TimerElapsed));
    assert_eq!(count_publishes(&all), 0);
    assert_eq!(count_warnings(&all), 1);
    assert_eq!(all[1], Action::RoundFinished(Ok(())));
    assert_eq!(poll_loop.state, fresh());
}

#[test]
fn round_waits_for_the_timer_after_a_fast_check() {
    let (mut poll_loop, _) = PollLoop::start(config());
    poll_loop.step(Event::DevicesFetched(vec![device("phone", false)]));
    let after_publish = poll_loop.step(Event::Published);
    assert_eq!(after_publish, Vec::<Action>::new());
    assert_eq!(
        poll_loop.state,
        LoopState::Polling(Round { timer_elapsed: false, check: CheckPhase::Finished(Ok(())) })
    );
    let ended = poll_loop.step(Event::TimerElapsed);
    assert_eq!(ended[0], Action::RoundFinished(Ok(())));
}

#[test]
fn round_waits_for_a_slow_check_after_the_timer() {
    let (mut poll_loop, _) = PollLoop::start(config());
    assert_eq!(poll_loop.step(Event::TimerElapsed), Vec::<Action>::new());
    assert_eq!(
        poll_loop.state,
        LoopState::Polling(Round { timer_elapsed: true, check: CheckPhase::Fetching })
    );
    let fetched = poll_loop.step(Event::DevicesFetched(vec![device("phone", true)]));
    assert_eq!(fetched, vec![Action::Publish(phone_message(true))]);
    assert_eq!(
        poll_loop.state,
        LoopState::Polling(Round { timer_elapsed: true, check: CheckPhase::Publishing })
    );
    let ended = poll_loop.step(Event::Published);
    assert_eq!(
        ended,
        vec![
            Action::RoundFinished(Ok(())),
            Action::StartTimer { seconds: 5 },
            Action::FetchDevices { network_id: String::from("net-1") },
        ]
    );
}

#[test]
fn unknown_device_after_the_timer_warns_and_ends_the_round() {
    let (mut poll_loop, _) = PollLoop::start(config());
    poll_loop.step(Event::TimerElapsed);
    let actions = poll_loop.step(Event::DevicesFetched(Vec::new()));
    assert_eq!(
        actions,
        vec![
            Action::WarnUnknownDevice,
            Action::RoundFinished(Ok(())),
            Action::StartTimer { seconds: 5 },
            Action::FetchDevices { network_id: String::from("net-1") },
        ]
    );
}

#[test]
fn fetch_failure_ends_only_its_own_round() {
    let (mut poll_loop, _) = PollLoop::start(config());
    assert_eq!(poll_loop.step(Event::FetchFailed), Vec::<Action>::new());
    let ended = poll_loop.step(Event::TimerElapsed);
    assert_eq!(
        ended,
        vec![
            Action::RoundFinished(Err(CycleError::Fetch)),
            Action::StartTimer { seconds: 5 },
            Action::FetchDevices { network_id: String::from("net-1") },
        ]
    );
    assert_eq!(poll_loop.state, fresh());
    let next_round = poll_loop.step(Event::DevicesFetched(vec![device("phone", true)]));
    assert_eq!(next_round, vec![Action::Publish(phone_message(true))]);
    poll_loop.step(Event::Published);
    assert_eq!(poll_loop.step(Event::TimerElapsed)[0], Action::RoundFinished(Ok(())));
}

#[test]
fn publish_failure_ends_only_its_own_round() {
    let (mut poll_loop, _) = PollLoop::start(config());
    poll_loop.step(Event::DevicesFetched(vec![device("phone", true)]));
    assert_eq!(poll_loop.step(Event::PublishFailed), Vec::<Action>::new());
    let ended = poll_loop.step(Event::TimerElapsed);
    assert_eq!(ended[0], Action::RoundFinished(Err(CycleError::Publish)));
    assert_eq!(&ended[1..], &round_start()[..]);
    assert_eq!(poll_loop.state, fresh());
}

#[test]
fn interrupt_mid_round_disconnects_once_and_exits() {
    let (mut poll_loop, _) = PollLoop::start(config());
    poll_loop.step(Event::DevicesFetched(vec![device("phone", true)]));
    let stop = poll_loop.step(Event::Interrupt);
    assert_eq!(stop, vec![Action::Disconnect, Action::Exit]);
    assert_eq!(poll_loop.state, LoopState::ShuttingDown);
    assert!(poll_loop.is_shutting_down());
    assert_eq!(poll_loop.step(Event::Published), Vec::<Action>::new());
    assert_eq!(poll_loop.step(Event::TimerElapsed), Vec::<Action>::new());
    assert_eq!(poll_loop.step(Event::Interrupt), Vec::<Action>::new());
    assert_eq!(poll_loop.step(Event::DevicesFetched(vec![device("phone", true)])), Vec::<Action>::new());
    assert_eq!(poll_loop.state, LoopState::ShuttingDown);
}

#[test]
fn interrupt_before_anything_else_disconnects_once_and_exits() {
    let (mut poll_loop, _) = PollLoop::start(config());
    assert_eq!(poll_loop.step(Event::Interrupt), vec![Action::Disconnect, Action::Exit]);
    assert_eq!(poll_loop.step(Event::FetchFailed), Vec::<Action>::new());
}

#[test]
fn interrupt_at_a_round_boundary_starts_no_round() {
    let (mut poll_loop, _) = PollLoop::start(config());
    poll_loop.step(Event::FetchFailed);
    poll_loop.step(Event::TimerElapsed);
    let stop = poll_loop.step(Event::Interrupt);
    assert_eq!(stop, vec![Action::Disconnect, Action::Exit]);
}

#[test]
fn events_out_of_phase_change_nothing() {
    let (mut poll_loop, _) = PollLoop::start(config());
    assert_eq!(poll_loop.step(Event::Published), Vec::<Action>::new());
    assert_eq!(poll_loop.step(Event::PublishFailed), Vec::<Action>::new());
    assert_eq!(poll_loop.state, fresh());
    poll_loop.step(Event::DevicesFetched(vec![device("phone", true)]));
    let again = poll_loop.step(Event::DevicesFetched(vec![device("phone", false)]));
    assert_eq!(again, Vec::<Action>::new());
    assert_eq!(poll_loop.step(Event::FetchFailed), Vec::<Action>::new());
    assert_eq!(
        poll_loop.state,
        LoopState::Polling(Round { timer_elapsed: false, check: CheckPhase::Publishing })
    );
}

#[test]
fn second_timer_event_in_a_round_changes_nothing() {
    let (mut poll_loop, _) = PollLoop::start(config());
    poll_loop.step(Event::TimerElapsed);
    let state = poll_loop.state;
    assert_eq!(poll_loop.step(Event::TimerElapsed), Vec::<Action>::new());
    assert_eq!(poll_loop.state, state);
}

#[test]
fn round_outcome_needs_both_halves() {
    let pending = Round::fresh();
    assert_eq!(pending, Round { timer_elapsed: false, check: CheckPhase::Fetching });
    assert_eq!(pending.outcome(), None);
    assert_eq!(Round { timer_elapsed: true, check: CheckPhase::Fetching }.outcome(), None);
    assert_eq!(Round { timer_elapsed: true, check: CheckPhase::Publishing }.outcome(), None);
    assert_eq!(
        Round { timer_elapsed: false, check: CheckPhase::Finished(Ok(())) }.outcome(),
        None
    );
    assert_eq!(
        Round { timer_elapsed: true, check: CheckPhase::Finished(Ok(())) }.outcome(),
        Some(Ok(()))
    );
    assert_eq!(
        Round { timer_elapsed: true, check: CheckPhase::Finished(Err(CycleError::Fetch)) }
            .outcome(),
        Some(Err(CycleError::Fetch))
    );
}

#[test]
fn check_phase_follows_the_poll_cycle() {
    let config = config();
    let (phase, actions) =
        CheckPhase::Fetching.on_event(&config, Event::DevicesFetched(vec![device("phone", false)]));
    assert_eq!(phase, CheckPhase::Publishing);
    assert_eq!(actions, vec![Action::Publish(phone_message(false))]);
    let (phase, actions) = phase.on_event(&config, Event::Published);
    assert_eq!(phase, CheckPhase::Finished(Ok(())));
    assert_eq!(actions, Vec::<Action>::new());
    let (phase, actions) = phase.on_event(&config, Event::FetchFailed);
    assert_eq!(phase, CheckPhase::Finished(Ok(())));
    assert_eq!(actions, Vec::<Action>::new());
    let (phase, _) = CheckPhase::Fetching.on_event(&config, Event::FetchFailed);
    assert_eq!(phase, CheckPhase::Finished(Err(CycleError::Fetch)));
    let (phase, _) = CheckPhase::Publishing.on_event(&config, Event::PublishFailed);
    assert_eq!(phase, CheckPhase::Finished(Err(CycleError::Publish)));
}

#[test]
fn round_event_marks_the_timer_and_keeps_the_check() {
    let config = config();
    let (round, actions) = Round::fresh().on_event(&config, Event::TimerElapsed);
    assert_eq!(round, Round { timer_elapsed: true, check: CheckPhase::Fetching });
    assert_eq!(actions, Vec::<Action>::new());
    let (round, actions) = round.on_event(&config, Event::DevicesFetched(Vec::new()));
    assert_eq!(round, Round { timer_elapsed: true, check: CheckPhase::Finished(Ok(())) });
    assert_eq!(actions, vec![Action::WarnUnknownDevice]);
}

#[test]
fn many_rounds_publish_one_message_each() {
    let (mut poll_loop, _) = PollLoop::start(config());
    let mut publishes = 0;
    let mut rounds = 0;
    for i in 0..6 {
        let connected = i % 2 == 0;
        let fetched = poll_loop.step(Event::DevicesFetched(vec![device("phone", connected)]));
        assert_eq!(fetched, vec![Action::Publish(phone_message(connected))]);
        publishes += count_publishes(&fetched);
        publishes += count_publishes(&poll_loop.step(Event::Published));
        let ended = poll_loop.step(Event::TimerElapsed);
        publishes += count_publishes(&ended);
        if ended.contains(&Action::RoundFinished(Ok(()))) {
            rounds += 1;
        }
    }
    assert_eq!(rounds, 6);
    assert_eq!(publishes, 6);
}
