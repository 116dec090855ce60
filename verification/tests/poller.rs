use sensor_poller::poller::{
    is_fatal, Action, Config, ErrorKind, Event, FailurePolicy, Outcome, Phase, PollPolicy, Step,
    ALIGNED_TICK_SECS,
};

fn config(policy: PollPolicy, on_failure: FailurePolicy) -> Config {
    Config::new(
        "http://192.168.0.190/json".to_string(),
        "data/weather.csv".to_string(),
        policy,
        on_failure,
    )
    .expect("a policy that can be run")
}

const ALIGNED: PollPolicy = PollPolicy::Aligned { interval_minutes: 5 };
const UNCONDITIONAL: PollPolicy = PollPolicy::Unconditional { period_secs: 1800 };

const RUN: Step = Step { next: Phase::Fetching, action: Action::RunCycle, report: None };

fn failed(kind: ErrorKind) -> Event {
    Event::CycleEnded { outcome: Outcome::Failed(kind) }
}

const LOGGED: Event = Event::CycleEnded { outcome: Outcome::Logged };

#[test]
fn configuration_keeps_what_it_was_given() {
    let made = config(ALIGNED, FailurePolicy::FailSoft);
    assert_eq!(made.endpoint(), "http://192.168.0.190/json");
    assert_eq!(made.log_path(), "data/weather.csv");
    assert_eq!(made.policy(), ALIGNED);
    assert_eq!(made.on_failure(), FailurePolicy::FailSoft);
}

#[test]
fn aligned_interval_of_zero_is_refused() {
    let made = Config::new(
        String::new(),
        String::new(),
        PollPolicy::Aligned { interval_minutes: 0 },
        FailurePolicy::FailSoft,
    );
    assert_eq!(made, None);
}

#[test]
fn period_of_zero_is_accepted() {
    let made = Config::new(
        String::new(),
        String::new(),
        PollPolicy::Unconditional { period_secs: 0 },
        FailurePolicy::FailFast,
    );
    assert!(made.is_some());
}

#[test]
fn aligned_tick_pauses_sixty_seconds() {
    assert_eq!(ALIGNED_TICK_SECS, 60);
}

#[test]
fn aligned_poller_fires_on_a_minute_that_is_a_multiple_of_five() {
    let made = config(ALIGNED, FailurePolicy::FailSoft);
    let unix_secs = 28_333_335u64 * 60 + 17;
    assert_eq!(made.step(Phase::Idle, Event::Tick { unix_secs }), Some(RUN));
    assert_eq!(made.start(unix_secs), RUN);
}

#[test]
fn aligned_poller_stays_idle_one_minute_after_a_multiple_of_five() {
    let made = config(ALIGNED, FailurePolicy::FailSoft);
    let unix_secs = 28_333_336u64 * 60 + 17;
    let wait = Step { next: Phase::Idle, action: Action::Pause { secs: 60 }, report: None };
    assert_eq!(made.step(Phase::Idle, Event::Tick { unix_secs }), Some(wait));
    assert_eq!(made.start(unix_secs), wait);
}

#[test]
fn aligned_poller_goes_idle_after_a_cycle() {
    let made = config(ALIGNED, FailurePolicy::FailSoft);
    assert_eq!(
        made.step(Phase::Fetching, LOGGED),
        Some(Step { next: Phase::Idle, action: Action::Pause { secs: 60 }, report: None })
    );
}

#[test]
fn unconditional_poller_starts_with_a_cycle_and_sleeps_its_period() {
    let made = config(UNCONDITIONAL, FailurePolicy::FailSoft);
    assert_eq!(made.start(61), RUN);
    assert_eq!(
        made.step(Phase::Fetching, LOGGED),
        Some(Step { next: Phase::Sleeping, action: Action::Pause { secs: 1800 }, report: None })
    );
    assert_eq!(made.step(Phase::Sleeping, Event::Tick { unix_secs: 61 }), Some(RUN));
    assert_eq!(made.step(Phase::Sleeping, Event::Tick { unix_secs: 300 }), Some(RUN));
}

#[test]
fn one_shot_poller_runs_one_cycle_and_stops() {
    for on_failure in [FailurePolicy::FailSoft, FailurePolicy::FailFast] {
        let made = config(PollPolicy::OneShot, on_failure);
        assert_eq!(made.start(61), RUN);
        assert_eq!(
            made.step(Phase::Fetching, LOGGED),
            Some(Step {
                next: Phase::Stopped,
                action: Action::Stop { success: true },
                report: None
            })
        );
        for kind in [ErrorKind::Transport, ErrorKind::Decode, ErrorKind::Io] {
            assert_eq!(
                made.step(Phase::Fetching, failed(kind)),
                Some(Step {
                    next: Phase::Stopped,
                    action: Action::Stop { success: false },
                    report: Some(kind)
                })
            );
        }
    }
}

#[test]
fn refused_connection_is_reported_and_the_loop_goes_on() {
    let aligned = config(ALIGNED, FailurePolicy::FailSoft);
    assert_eq!(
        aligned.step(Phase::Fetching, failed(ErrorKind::Transport)),
        Some(Step {
            next: Phase::Idle,
            action: Action::Pause { secs: 60 },
            report: Some(ErrorKind::Transport)
        })
    );
    // the next tick is handled as if nothing had happened
    assert_eq!(aligned.step(Phase::Idle, Event::Tick { unix_secs: 300 }), Some(RUN));

    let unconditional = config(UNCONDITIONAL, FailurePolicy::FailSoft);
    assert_eq!(
        unconditional.step(Phase::Fetching, failed(ErrorKind::Transport)),
        Some(Step {
            next: Phase::Sleeping,
            action: Action::Pause { secs: 1800 },
            report: Some(ErrorKind::Transport)
        })
    );
    assert_eq!(unconditional.step(Phase::Sleeping, Event::Tick { unix_secs: 1 }), Some(RUN));
}

#[test]
fn undecodable_answer_is_reported_and_the_loop_goes_on() {
    let aligned = config(ALIGNED, FailurePolicy::FailSoft);
    assert_eq!(
        aligned.step(Phase::Fetching, failed(ErrorKind::Decode)),
        Some(Step {
            next: Phase::Idle,
            action: Action::Pause { secs: 60 },
            report: Some(ErrorKind::Decode)
        })
    );
}

#[test]
fn unwritable_log_stops_a_fail_soft_poller() {
    for policy in [ALIGNED, UNCONDITIONAL] {
        let made = config(policy, FailurePolicy::FailSoft);
        assert_eq!(
            made.step(Phase::Fetching, failed(ErrorKind::Io)),
            Some(Step {
                next: Phase::Stopped,
                action: Action::Stop { success: false },
                report: Some(ErrorKind::Io)
            })
        );
    }
}

#[test]
fn any_failure_stops_a_fail_fast_poller() {
    for policy in [ALIGNED, UNCONDITIONAL, PollPolicy::OneShot] {
        let made = config(policy, FailurePolicy::FailFast);
        for kind in [ErrorKind::Transport, ErrorKind::Decode, ErrorKind::Io] {
            assert_eq!(
                made.step(Phase::Fetching, failed(kind)),
                Some(Step {
                    next: Phase::Stopped,
                    action: Action::Stop { success: false },
                    report: Some(kind)
                })
            );
        }
    }
}

#[test]
fn fatality_follows_policy_and_kind() {
    for kind in [ErrorKind::Transport, ErrorKind::Decode, ErrorKind::Io] {
        assert!(is_fatal(PollPolicy::OneShot, FailurePolicy::FailSoft, kind));
        assert!(is_fatal(PollPolicy::OneShot, FailurePolicy::FailFast, kind));
        assert!(is_fatal(ALIGNED, FailurePolicy::FailFast, kind));
        assert!(is_fatal(UNCONDITIONAL, FailurePolicy::FailFast, kind));
    }
    for policy in [ALIGNED, UNCONDITIONAL] {
        assert!(!is_fatal(policy, FailurePolicy::FailSoft, ErrorKind::Transport));
        assert!(!is_fatal(policy, FailurePolicy::FailSoft, ErrorKind::Decode));
        assert!(is_fatal(policy, FailurePolicy::FailSoft, ErrorKind::Io));
    }
}

#[test]
fn stopped_poller_makes_no_move() {
    for policy in [ALIGNED, UNCONDITIONAL, PollPolicy::OneShot] {
        let made = config(policy, FailurePolicy::FailSoft);
        assert_eq!(made.step(Phase::Stopped, Event::Tick { unix_secs: 0 }), None);
        assert_eq!(made.step(Phase::Stopped, LOGGED), None);
        assert_eq!(made.step(Phase::Stopped, failed(ErrorKind::Io)), None);
    }
}

#[test]
fn event_out_of_place_causes_no_move() {
    let aligned = config(ALIGNED, FailurePolicy::FailSoft);
    assert_eq!(aligned.step(Phase::Idle, LOGGED), None);
    assert_eq!(aligned.step(Phase::Fetching, Event::Tick { unix_secs: 0 }), None);
    assert_eq!(aligned.step(Phase::Sleeping, Event::Tick { unix_secs: 0 }), None);

    let unconditional = config(UNCONDITIONAL, FailurePolicy::FailSoft);
    assert_eq!(unconditional.step(Phase::Sleeping, LOGGED), None);
    assert_eq!(unconditional.step(Phase::Idle, Event::Tick { unix_secs: 0 }), None);
    assert_eq!(unconditional.step(Phase::Fetching, Event::Tick { unix_secs: 0 }), None);

    let one_shot = config(PollPolicy::OneShot, FailurePolicy::FailSoft);
    assert_eq!(one_shot.step(Phase::Idle, Event::Tick { unix_secs: 0 }), None);
    assert_eq!(one_shot.step(Phase::Sleeping, Event::Tick { unix_secs: 0 }), None);
}

#[test]
fn aligned_poller_runs_one_cycle_every_five_minutes() {
    let made = config(ALIGNED, FailurePolicy::FailSoft);
    let first_minute = 28_333_335u64;
    let mut unix_secs = first_minute * 60 + 3;
    let mut step = made.start(unix_secs);
    let mut cycles_at: Vec<u64> = Vec::new();
    // one hundred minutes, from the start to the last second of minute 99
    while unix_secs / 60 - first_minute < 100 {
        step = match step.action {
            Action::RunCycle => {
                cycles_at.push(unix_secs / 60 - first_minute);
                made.step(step.next, LOGGED).unwrap()
            }
            Action::Pause { secs } => {
                unix_secs += secs;
                made.step(step.next, Event::Tick { unix_secs }).unwrap()
            }
            Action::Stop { .. } => panic!("a looping poller does not stop on success"),
        };
    }
    let expected: Vec<u64> = (0..20).map(|n| n * 5).collect();
    assert_eq!(cycles_at, expected);
}
