//! The control loop of the poller, as a machine: it is told what happened
//! and answers what to do next. Its caller does what it answers (runs a
//! cycle of fetch, decode and append; pauses; stops) and reports back.

use vstd::prelude::*;
use crate::schedule::{aligned, is_due, minute_of};

verus! {

/// Seconds between two looks at the clock under an aligned interval.
pub const ALIGNED_TICK_SECS: u64 = 60;

/// When cycles run.
#[derive(Clone, Copy, Debug, PartialEq, Eq)]
pub enum PollPolicy {
    /// One cycle, and no more.
    OneShot,
    /// A cycle, a pause of `period_secs` seconds, and so on without end.
    Unconditional { period_secs: u64 },
    /// A look at the clock every sixty seconds, and a cycle whenever the
    /// minute since the Unix epoch is a multiple of `interval_minutes`.
    Aligned { interval_minutes: u64 },
}

/// What a failed cycle does to a poller that loops. A one-shot poller stops
/// on any failure, whichever policy it has.
#[derive(Clone, Copy, Debug, PartialEq, Eq)]
pub enum FailurePolicy {
    /// A failure of transport or of decoding is reported and the loop goes
    /// on with the next tick. A log that cannot be written still stops the
    /// poller.
    FailSoft,
    /// Any failure is reported and stops the poller.
    FailFast,
}

/// What went wrong in a cycle.
#[derive(Clone, Copy, Debug, PartialEq, Eq)]
pub enum ErrorKind {
    /// The sensor could not be reached or did not answer.
    Transport,
    /// The answer held no reading.
    Decode,
    /// The log file could not be opened or written.
    Io,
}

/// How a cycle ended.
#[derive(Clone, Copy, Debug, PartialEq, Eq)]
pub enum Outcome {
    /// A row was appended to the log.
    Logged,
    /// The cycle failed, and no row was appended.
    Failed(ErrorKind),
}

/// Where the poller stands.
#[derive(Clone, Copy, Debug, PartialEq, Eq)]
pub enum Phase {
    /// Waiting for the next look at the clock, under an aligned interval.
    Idle,
    /// A cycle is running.
    Fetching,
    /// Pausing between two cycles, under an unconditional interval.
    Sleeping,
    /// The poller has stopped.
    Stopped,
}

/// What the caller reports to the machine.
#[derive(Clone, Copy, Debug, PartialEq, Eq)]
pub enum Event {
    /// A pause has ended, and the clock reads `unix_secs` seconds since the
    /// Unix epoch.
    Tick { unix_secs: u64 },
    /// The cycle has ended.
    CycleEnded { outcome: Outcome },
}

/// What the machine asks of its caller.
#[derive(Clone, Copy, Debug, PartialEq, Eq)]
pub enum Action {
    /// Run one cycle: fetch, decode, append; then report how it ended.
    RunCycle,
    /// Pause for `secs` seconds, then report a tick.
    Pause { secs: u64 },
    /// End the process, with exit code zero exactly on `success`.
    Stop { success: bool },
}

/// One move of the machine: the phase it enters, what it asks for, and the
/// failure to report in a diagnostic, if there is one.
#[derive(Clone, Copy, Debug, PartialEq, Eq)]
pub struct Step {
    /// The phase that the poller enters.
    pub next: Phase,
    /// What the caller is to do now.
    pub action: Action,
    /// The failure that ended the cycle, to be named in a diagnostic.
    pub report: Option<ErrorKind>,
}

/// A policy can be run: an aligned interval is not zero.
pub open spec fn valid_policy(policy: PollPolicy) -> bool {
    policy matches PollPolicy::Aligned { interval_minutes } ==> interval_minutes > 0
}

/// A phase belongs to a policy: a cycle may run and the poller may have
/// stopped under any policy; only an aligned interval idles, and only an
/// unconditional one sleeps.
pub open spec fn belongs_to(policy: PollPolicy, phase: Phase) -> bool {
    match phase {
        Phase::Idle => policy is Aligned,
        Phase::Sleeping => policy is Unconditional,
        Phase::Fetching => true,
        Phase::Stopped => true,
    }
}

/// The move into a cycle.
pub open spec fn run_cycle() -> Step {
    Step { next: Phase::Fetching, action: Action::RunCycle, report: None }
}

/// The move that follows a cycle after which the poller goes on: a
/// one-shot poller has done its work, a looping one pauses.
pub open spec fn after_cycle(policy: PollPolicy) -> Step {
    match policy {
        PollPolicy::OneShot => Step {
            next: Phase::Stopped,
            action: Action::Stop { success: true },
            report: None,
        },
        PollPolicy::Unconditional { period_secs } => Step {
            next: Phase::Sleeping,
            action: Action::Pause { secs: period_secs },
            report: None,
        },
        PollPolicy::Aligned { .. } => Step {
            next: Phase::Idle,
            action: Action::Pause { secs: ALIGNED_TICK_SECS },
            report: None,
        },
    }
}

/// A failure of this kind stops the poller.
pub open spec fn fatal(policy: PollPolicy, on_failure: FailurePolicy, kind: ErrorKind) -> bool {
    policy is OneShot || on_failure is FailFast || kind is Io
}

/// The move that follows a failed cycle: the failure is reported; the
/// poller stops where the failure is fatal, and else goes on as after any
/// other cycle.
pub open spec fn after_failure(
    policy: PollPolicy,
    on_failure: FailurePolicy,
    kind: ErrorKind,
) -> Step {
    if fatal(policy, on_failure, kind) {
        Step { next: Phase::Stopped, action: Action::Stop { success: false }, report: Some(kind) }
    } else {
        Step { next: after_cycle(policy).next, action: after_cycle(policy).action, report: Some(kind) }
    }
}

/// The move on a look at the clock under an aligned interval: into a cycle
/// where the minute is a multiple of the interval, and else another pause.
pub open spec fn on_aligned_tick(unix_secs: u64, interval_minutes: u64) -> Step {
    if aligned(unix_secs as int, interval_minutes as int) {
        run_cycle()
    } else {
        Step {
            next: Phase::Idle,
            action: Action::Pause { secs: ALIGNED_TICK_SECS },
            report: None,
        }
    }
}

/// The first move of a poller that starts when the clock reads `unix_secs`:
/// straight into a cycle, but for an aligned interval, under which the
/// start is a look at the clock like any other.
pub open spec fn first_step(policy: PollPolicy, unix_secs: u64) -> Step {
    match policy {
        PollPolicy::Aligned { interval_minutes } => on_aligned_tick(unix_secs, interval_minutes),
        _ => run_cycle(),
    }
}

/// The move that an event causes in a phase; `None` where the event cannot
/// occur in that phase under that policy.
pub open spec fn next_step(
    policy: PollPolicy,
    on_failure: FailurePolicy,
    phase: Phase,
    event: Event,
) -> Option<Step> {
    match (phase, event) {
        (Phase::Fetching, Event::CycleEnded { outcome: Outcome::Logged }) => Some(
            after_cycle(policy),
        ),
        (Phase::Fetching, Event::CycleEnded { outcome: Outcome::Failed(kind) }) => Some(
            after_failure(policy, on_failure, kind),
        ),
        (Phase::Idle, Event::Tick { unix_secs }) => match policy {
            PollPolicy::Aligned { interval_minutes } => Some(
                on_aligned_tick(unix_secs, interval_minutes),
            ),
            _ => None,
        },
        (Phase::Sleeping, Event::Tick { .. }) => match policy {
            PollPolicy::Unconditional { .. } => Some(run_cycle()),
            _ => None,
        },
        _ => None,
    }
}

/// What a poller is set up with: where the sensor answers, where the log
/// lies, when cycles run, and what a failure does. Its policy can be run.
#[derive(Debug, PartialEq, Eq)]
pub struct Config {
    endpoint: String,
    log_path: String,
    policy: PollPolicy,
    on_failure: FailurePolicy,
}

/// A configuration, with its texts as sequences of characters.
pub struct ConfigView {
    pub endpoint: Seq<char>,
    pub log_path: Seq<char>,
    pub policy: PollPolicy,
    pub on_failure: FailurePolicy,
}

impl View for Config {
    type V = ConfigView;

    closed spec fn view(&self) -> ConfigView {
        ConfigView {
            endpoint: self.endpoint@,
            log_path: self.log_path@,
            policy: self.policy,
            on_failure: self.on_failure,
        }
    }
}

impl Config {
    #[verifier::type_invariant]
    closed spec fn policy_is_valid(&self) -> bool {
        valid_policy(self.policy)
    }

    /// Makes a configuration; `None` where the policy is an aligned
    /// interval of zero minutes, which no minute is a multiple of.
    pub fn new(
        endpoint: String,
        log_path: String,
        policy: PollPolicy,
        on_failure: FailurePolicy,
    ) -> (config: Option<Config>)
        ensures
            match config {
                Some(config) => valid_policy(policy) && config@ == (ConfigView {
                    endpoint: endpoint@,
                    log_path: log_path@,
                    policy,
                    on_failure,
                }),
                None => !valid_policy(policy),
            },
    {
        match policy {
            PollPolicy::Aligned { interval_minutes } => {
                if interval_minutes == 0 {
                    return None;
                }
            },
            _ => {},
        }
        Some(Config { endpoint, log_path, policy, on_failure })
    }

    /// The address at which the sensor answers.
    pub fn endpoint(&self) -> (text: &str)
        ensures
            text@ == self@.endpoint,
    {
        self.endpoint.as_str()
    }

    /// The path of the log file.
    pub fn log_path(&self) -> (text: &str)
        ensures
            text@ == self@.log_path,
    {
        self.log_path.as_str()
    }

    /// When cycles run. The policy of a configuration can be run.
    pub fn policy(&self) -> (policy: PollPolicy)
        ensures
            policy == self@.policy,
            valid_policy(policy),
    {
        proof {
            use_type_invariant(self);
        }
        self.policy
    }

    /// What a failure does.
    pub fn on_failure(&self) -> (on_failure: FailurePolicy)
        ensures
            on_failure == self@.on_failure,
    {
        self.on_failure
    }

    /// The first move of the poller, when the clock reads `unix_secs`
    /// seconds since the Unix epoch.
    pub fn start(&self, unix_secs: u64) -> (step: Step)
        ensures
            step == first_step(self@.policy, unix_secs),
    {
        match self.policy() {
            PollPolicy::Aligned { interval_minutes } => aligned_tick(unix_secs, interval_minutes),
            _ => Step { next: Phase::Fetching, action: Action::RunCycle, report: None },
        }
    }

    /// The move that `event` causes in `phase`; `None` where the event
    /// cannot occur in that phase under this policy.
    pub fn step(&self, phase: Phase, event: Event) -> (step: Option<Step>)
        ensures
            step == next_step(self@.policy, self@.on_failure, phase, event),
    {
        let policy = self.policy();
        match (phase, event) {
            (Phase::Fetching, Event::CycleEnded { outcome }) => match outcome {
                Outcome::Logged => Some(pause_or_finish(policy)),
                Outcome::Failed(kind) => {
                    if is_fatal(policy, self.on_failure, kind) {
                        Some(
                            Step {
                                next: Phase::Stopped,
                                action: Action::Stop { success: false },
                                report: Some(kind),
                            },
                        )
                    } else {
                        let onward = pause_or_finish(policy);
                        Some(Step { next: onward.next, action: onward.action, report: Some(kind) })
                    }
                },
            },
            (Phase::Idle, Event::Tick { unix_secs }) => match policy {
                PollPolicy::Aligned { interval_minutes } => Some(
                    aligned_tick(unix_secs, interval_minutes),
                ),
                _ => None,
            },
            (Phase::Sleeping, Event::Tick { .. }) => match policy {
                PollPolicy::Unconditional { .. } => Some(
                    Step { next: Phase::Fetching, action: Action::RunCycle, report: None },
                ),
                _ => None,
            },
            _ => None,
        }
    }
}

/// Whether a failure of this kind stops the poller.
pub fn is_fatal(policy: PollPolicy, on_failure: FailurePolicy, kind: ErrorKind) -> (stops: bool)
    ensures
        stops == fatal(policy, on_failure, kind),
{
    let one_shot = match policy {
        PollPolicy::OneShot => true,
        _ => false,
    };
    let fail_fast = match on_failure {
        FailurePolicy::FailFast => true,
        FailurePolicy::FailSoft => false,
    };
    let unwritable = match kind {
        ErrorKind::Io => true,
        _ => false,
    };
    one_shot || fail_fast || unwritable
}

fn pause_or_finish(policy: PollPolicy) -> (step: Step)
    ensures
        step == after_cycle(policy),
{
    match policy {
        PollPolicy::OneShot => Step {
            next: Phase::Stopped,
            action: Action::Stop { success: true },
            report: None,
        },
        PollPolicy::Unconditional { period_secs } => Step {
            next: Phase::Sleeping,
            action: Action::Pause { secs: period_secs },
            report: None,
        },
        PollPolicy::Aligned { .. } => Step {
            next: Phase::Idle,
            action: Action::Pause { secs: ALIGNED_TICK_SECS },
            report: None,
        },
    }
}

fn aligned_tick(unix_secs: u64, interval_minutes: u64) -> (step: Step)
    requires
        interval_minutes > 0,
    ensures
        step == on_aligned_tick(unix_secs, interval_minutes),
{
    if is_due(unix_secs, interval_minutes) {
        Step { next: Phase::Fetching, action: Action::RunCycle, report: None }
    } else {
        Step { next: Phase::Idle, action: Action::Pause { secs: ALIGNED_TICK_SECS }, report: None }
    }
}

/// Under an aligned interval a look at the clock leads into a cycle exactly
/// when the minute since the Unix epoch is a multiple of the interval; at
/// any other minute the poller stays idle for another sixty seconds.
pub proof fn law_aligned_tick(interval_minutes: u64, on_failure: FailurePolicy, unix_secs: u64)
    requires
        interval_minutes > 0,
    ensures
        next_step(
            PollPolicy::Aligned { interval_minutes },
            on_failure,
            Phase::Idle,
            Event::Tick { unix_secs },
        ) == Some(
            if minute_of(unix_secs as int) % (interval_minutes as int) == 0 {
                Step { next: Phase::Fetching, action: Action::RunCycle, report: None }
            } else {
                Step { next: Phase::Idle, action: Action::Pause { secs: 60 }, report: None }
            },
        ),
{
}

/// Fail-soft: in a poller that loops, a cycle that fails in transport or in
/// decoding is reported, and the poller goes on as it does after a cycle
/// that logged a row: with a pause, towards the next tick.
pub proof fn law_fail_soft_goes_on(policy: PollPolicy, kind: ErrorKind)
    requires
        !(policy is OneShot),
        !(kind is Io),
    ensures
        ({
            let failed = next_step(
                policy,
                FailurePolicy::FailSoft,
                Phase::Fetching,
                Event::CycleEnded { outcome: Outcome::Failed(kind) },
            );
            let logged = next_step(
                policy,
                FailurePolicy::FailSoft,
                Phase::Fetching,
                Event::CycleEnded { outcome: Outcome::Logged },
            );
            &&& failed is Some
            &&& logged is Some
            &&& failed->0.report == Some(kind)
            &&& failed->0.next == logged->0.next
            &&& failed->0.action == logged->0.action
            &&& failed->0.action is Pause
        }),
{
}

/// Fail-fast, and one-shot under either policy: any failed cycle is
/// reported and stops the poller without success.
pub proof fn law_fatal_failure_stops(policy: PollPolicy, on_failure: FailurePolicy, kind: ErrorKind)
    requires
        policy is OneShot || on_failure is FailFast,
    ensures
        next_step(
            policy,
            on_failure,
            Phase::Fetching,
            Event::CycleEnded { outcome: Outcome::Failed(kind) },
        ) == Some(
            Step {
                next: Phase::Stopped,
                action: Action::Stop { success: false },
                report: Some(kind),
            },
        ),
{
}

/// A one-shot poller runs one cycle and stops: it starts with a cycle, and
/// whatever the outcome, the next move ends the process, with success
/// exactly when a row was logged.
pub proof fn law_one_shot_runs_once(on_failure: FailurePolicy, unix_secs: u64, outcome: Outcome)
    ensures
        first_step(PollPolicy::OneShot, unix_secs) == run_cycle(),
        ({
            let last = next_step(
                PollPolicy::OneShot,
                on_failure,
                Phase::Fetching,
                Event::CycleEnded { outcome },
            );
            &&& last is Some
            &&& last->0.next is Stopped
            &&& last->0.action == Action::Stop { success: outcome is Logged }
        }),
{
}

/// The phase that a move enters fits what the move asks for: a cycle is
/// asked for exactly on entering `Fetching`, so no two cycles run at once;
/// the process is ended exactly on entering `Stopped`; and a failure is
/// reported only at the end of a failed cycle.
pub proof fn law_moves_fit_phases(
    policy: PollPolicy,
    on_failure: FailurePolicy,
    phase: Phase,
    event: Event,
)
    ensures
        next_step(policy, on_failure, phase, event) matches Some(step) ==> {
            &&& step.action is RunCycle <==> step.next is Fetching
            &&& step.action is Stop <==> step.next is Stopped
            &&& step.action is Pause <==> step.next is Idle || step.next is Sleeping
            &&& step.report matches Some(kind) ==> event == Event::CycleEnded {
                outcome: Outcome::Failed(kind),
            }
        },
{
}

/// A poller stays within the phases of its policy: its first move and
/// every later one enter a phase that belongs to the policy, and no event
/// moves it out of a phase that does not.
pub proof fn law_phases_fit_policy(
    policy: PollPolicy,
    on_failure: FailurePolicy,
    phase: Phase,
    event: Event,
    unix_secs: u64,
)
    ensures
        belongs_to(policy, first_step(policy, unix_secs).next),
        next_step(policy, on_failure, phase, event) matches Some(step) ==> belongs_to(policy, phase)
            && belongs_to(policy, step.next),
{
}

/// A poller that loops does not end by itself: where it stops, a cycle has
/// failed, and the failure was fatal under its policy. After a cycle that
/// logged a row it pauses.
pub proof fn law_loop_stops_on_fatal_failure_only(
    policy: PollPolicy,
    on_failure: FailurePolicy,
    phase: Phase,
    event: Event,
    unix_secs: u64,
)
    requires
        !(policy is OneShot),
    ensures
        !(first_step(policy, unix_secs).action is Stop),
        next_step(policy, on_failure, phase, event) matches Some(step) ==> (step.action is Stop
            ==> exists|kind: ErrorKind|
            event == (Event::CycleEnded { outcome: Outcome::Failed(kind) }) && #[trigger] fatal(
                policy,
                on_failure,
                kind,
            )),
        next_step(
            policy,
            on_failure,
            Phase::Fetching,
            Event::CycleEnded { outcome: Outcome::Logged },
        ) matches Some(step) && step.action is Pause,
{
    if let Some(step) = next_step(policy, on_failure, phase, event) {
        if step.action is Stop {
            let kind = event->outcome->Failed_0;
            assert(event == (Event::CycleEnded { outcome: Outcome::Failed(kind) }));
            assert(fatal(policy, on_failure, kind));
        }
    }
}

/// A poller that has stopped makes no further move, and no cycle ends
/// where none runs.
pub proof fn law_events_fit_phases(
    policy: PollPolicy,
    on_failure: FailurePolicy,
    phase: Phase,
    event: Event,
)
    ensures
        phase is Stopped ==> next_step(policy, on_failure, phase, event) is None,
        next_step(policy, on_failure, phase, event) is Some ==> (event is CycleEnded
            <==> phase is Fetching),
{
}

} // verus!
