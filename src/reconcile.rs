//! The per-service reconciliation loop as a state machine: from a state and
//! the outcome of the last action to the next state, the next action and an
//! optional healthcheck notice. Whoever runs the loop performs the actions and
//! reports their outcomes as events.
use vstd::prelude::*;
use crate::config::{overridden, GlobalSettings, ServiceConfig};
use crate::text::clone_text;
use crate::utils::{duration_of, parse_duration, DurationError};

verus! {

/// Where a loop stands.
#[derive(Debug, Clone, Copy, PartialEq, Eq, Structural)]
pub enum Phase {
    Init,
    Grace,
    Idle,
    Fetching,
    Validating,
    Applying,
    Recovering,
    Observing,
    Aborted,
}

/// The effective options one loop runs with.
#[derive(Debug, Clone, Copy, PartialEq, Eq, Structural)]
pub struct LoopSettings {
    pub grace_secs: u64,
    pub watch_interval: u64,
    pub auto_fix: bool,
    pub fix_permissions: bool,
    pub disable_restart: bool,
    pub monitor_logs: bool,
}

/// Why a loop refuses to start.
#[derive(Debug, Clone, Copy, PartialEq, Eq)]
pub enum LoopError {
    /// The startup grace period is no duration literal.
    GracePeriod(DurationError),
    /// Restarting is enabled but there is neither a restart command nor a
    /// compose directory to restart in.
    NoRestartTarget,
}

/// The in-memory state of one loop.
#[derive(Debug, Clone, PartialEq, Eq)]
pub struct ReconcileState {
    pub phase: Phase,
    /// The worktree's HEAD as last observed; unset before the first clone.
    pub current_commit: Option<String>,
    /// The commit of the last fully successful cycle.
    pub last_successful_commit: Option<String>,
    /// The HEAD when the current cycle began; what a rollback returns to.
    pub pre_fetch_commit: Option<String>,
    pub consecutive_failures: u64,
    /// When the last event arrived, in seconds of the caller's clock.
    pub last_event_ts: u64,
}

/// The outcome of the action last asked for.
#[derive(Debug, Clone, PartialEq, Eq)]
pub enum Event {
    Started,
    Waited,
    /// The worktree is cloned or updated; its HEAD.
    RepoReady(String),
    RepoFailed,
    /// Fetched; the remote head equals the local one.
    FetchUnchanged,
    /// A new commit was pulled; the new HEAD (the remote head).
    Pulled(String),
    /// Fetching or pulling failed without touching the worktree.
    FetchFailed,
    /// The pull conflicted; the adapter reset the worktree to its pre-pull HEAD.
    MergeConflict,
    ValidationPassed,
    ValidationFailed,
    Applied,
    ApplyFailed,
    Reverted,
    RevertFailed,
    LogsScanned,
}

/// What to do next.
#[derive(Debug, Clone, PartialEq, Eq)]
pub enum Action {
    /// Sleep this many seconds, then report `Waited`.
    Wait(u64),
    /// Clone the repository, or update an existing worktree.
    EnsureRepo,
    /// Fetch and pull when the remote head moved.
    CheckAndPull,
    Validate,
    /// Run the fix-up steps that are switched on, then restart when asked.
    Apply { fix_issues: bool, fix_permissions: bool, restart: bool },
    /// Hard-reset the worktree to this commit (to the previous HEAD when unset).
    Revert(Option<String>),
    ScanLogs,
    /// Leave the loop.
    Exit,
}

/// A healthcheck ping to send.
#[derive(Debug, Clone, Copy, PartialEq, Eq, Structural)]
pub enum Notice {
    Success,
    Failure,
}

#[derive(Debug, Clone, PartialEq, Eq)]
pub struct Transition {
    pub state: ReconcileState,
    pub action: Action,
    pub notice: Option<Notice>,
}

/// A service has somewhere to restart: its own restart command, its own
/// compose directory when it uses compose, or the global compose directory.
pub open spec fn has_restart_target(service: ServiceConfig, global: GlobalSettings) -> bool {
    service.restart_command is Some || (service.use_docker_compose
        && service.docker_compose_dir is Some) || global.default_compose_dir is Some
}

impl LoopSettings {
    /// The effective options of a service, or why its loop cannot start.
    pub open spec fn spec_for_service(service: ServiceConfig, global: GlobalSettings) -> Result<
        LoopSettings,
        LoopError,
    > {
        let disable_restart = overridden(service.disable_restart, global.disable_restart);
        match duration_of(global.startup_grace_period@) {
            Err(e) => Err(LoopError::GracePeriod(e)),
            Ok(grace_secs) => if !disable_restart && !has_restart_target(service, global) {
                Err(LoopError::NoRestartTarget)
            } else {
                Ok(
                    LoopSettings {
                        grace_secs,
                        watch_interval: global.watch_interval,
                        auto_fix: overridden(service.auto_fix, global.auto_fix),
                        fix_permissions: match service.permissions {
                            Some(p) => p.fix,
                            None => global.fix_permissions,
                        },
                        disable_restart,
                        monitor_logs: overridden(service.monitor_logs, global.monitor_logs),
                    },
                )
            },
        }
    }

    /// The effective options of a service; refused when the grace period does
    /// not parse, or when restarting is on and has no target.
    pub fn for_service(service: &ServiceConfig, global: &GlobalSettings) -> (r: Result<
        LoopSettings,
        LoopError,
    >)
        ensures
            r == LoopSettings::spec_for_service(*service, *global),
    {
        let grace_secs = match parse_duration(global.startup_grace_period.as_str()) {
            Ok(g) => g,
            Err(e) => return Err(LoopError::GracePeriod(e)),
        };
        let disable_restart = service.effective_disable_restart(global.disable_restart);
        let target = service.restart_command.is_some() || (service.use_docker_compose
            && service.docker_compose_dir.is_some()) || global.default_compose_dir.is_some();
        if !disable_restart && !target {
            return Err(LoopError::NoRestartTarget);
        }
        Ok(
            LoopSettings {
                grace_secs,
                watch_interval: global.watch_interval,
                auto_fix: service.effective_auto_fix(global.auto_fix),
                fix_permissions: service.effective_fix_permissions(global.fix_permissions),
                disable_restart,
                monitor_logs: service.effective_monitor_logs(global.monitor_logs),
            },
        )
    }
}

pub open spec fn failed_once(n: u64) -> u64 {
    if n == u64::MAX {
        n
    } else {
        (n + 1) as u64
    }
}

/// `s` in phase `p`.
pub open spec fn with_phase(s: ReconcileState, p: Phase) -> ReconcileState {
    ReconcileState { phase: p, ..s }
}

/// A failed cycle: one more consecutive failure, a `/fail` ping.
pub open spec fn failing(s: ReconcileState, p: Phase, a: Action) -> Option<Transition> {
    Some(
        Transition {
            state: ReconcileState {
                phase: p,
                consecutive_failures: failed_once(s.consecutive_failures),
                ..s
            },
            action: a,
            notice: Some(Notice::Failure),
        },
    )
}

/// Back to `Idle` until the next tick.
pub open spec fn resting(cfg: LoopSettings, s: ReconcileState) -> Transition {
    Transition {
        state: with_phase(s, Phase::Idle),
        action: Action::Wait(cfg.watch_interval),
        notice: None,
    }
}

/// After a tick with nothing to apply, or a successful apply: scan the logs
/// when monitoring is on, else rest.
pub open spec fn observing(cfg: LoopSettings, s: ReconcileState, notice: Option<Notice>) -> Transition {
    if cfg.monitor_logs {
        Transition { state: with_phase(s, Phase::Observing), action: Action::ScanLogs, notice }
    } else {
        Transition { notice, ..resting(cfg, s) }
    }
}

/// The transition table; `None` when the event does not answer the action
/// that the phase asked for.
pub open spec fn next(cfg: LoopSettings, s: ReconcileState, e: Event) -> Option<Transition> {
    match (s.phase, e) {
        (Phase::Init, Event::Started) => Some(
            Transition {
                state: with_phase(s, Phase::Grace),
                action: Action::Wait(cfg.grace_secs),
                notice: None,
            },
        ),
        (Phase::Grace, Event::Waited) => Some(
            Transition { state: s, action: Action::EnsureRepo, notice: None },
        ),
        (Phase::Grace, Event::RepoReady(head)) => Some(
            Transition {
                state: ReconcileState {
                    phase: Phase::Fetching,
                    current_commit: Some(head),
                    pre_fetch_commit: Some(head),
                    ..s
                },
                action: Action::CheckAndPull,
                notice: None,
            },
        ),
        (Phase::Grace, Event::RepoFailed) => failing(s, Phase::Aborted, Action::Exit),
        (Phase::Idle, Event::Waited) => Some(
            Transition {
                state: ReconcileState {
                    phase: Phase::Fetching,
                    pre_fetch_commit: s.current_commit,
                    ..s
                },
                action: Action::CheckAndPull,
                notice: None,
            },
        ),
        (Phase::Fetching, Event::FetchUnchanged) => Some(observing(cfg, s, None)),
        (Phase::Fetching, Event::Pulled(head)) => Some(
            Transition {
                state: ReconcileState {
                    phase: Phase::Validating,
                    current_commit: Some(head),
                    ..s
                },
                action: Action::Validate,
                notice: None,
            },
        ),
        (Phase::Fetching, Event::FetchFailed) => failing(
            s,
            Phase::Idle,
            Action::Wait(cfg.watch_interval),
        ),
        (Phase::Fetching, Event::MergeConflict) => failing(
            s,
            Phase::Recovering,
            Action::Revert(s.pre_fetch_commit),
        ),
        (Phase::Validating, Event::ValidationPassed) => Some(
            Transition {
                state: with_phase(s, Phase::Applying),
                action: Action::Apply {
                    fix_issues: cfg.auto_fix,
                    fix_permissions: cfg.fix_permissions,
                    restart: !cfg.disable_restart,
                },
                notice: None,
            },
        ),
        (Phase::Validating, Event::ValidationFailed) => if cfg.auto_fix {
            failing(s, Phase::Recovering, Action::Revert(s.pre_fetch_commit))
        } else {
            failing(s, Phase::Idle, Action::Wait(cfg.watch_interval))
        },
        (Phase::Applying, Event::Applied) => Some(
            observing(
                cfg,
                ReconcileState {
                    last_successful_commit: s.current_commit,
                    consecutive_failures: 0,
                    ..s
                },
                Some(Notice::Success),
            ),
        ),
        (Phase::Applying, Event::ApplyFailed) => failing(
            s,
            Phase::Recovering,
            Action::Revert(s.pre_fetch_commit),
        ),
        (Phase::Recovering, Event::Reverted) => Some(
            resting(cfg, ReconcileState { current_commit: s.pre_fetch_commit, ..s }),
        ),
        (Phase::Recovering, Event::RevertFailed) => Some(resting(cfg, s)),
        (Phase::Observing, Event::LogsScanned) => Some(resting(cfg, s)),
        _ => None,
    }
}

impl ReconcileState {
    /// A loop that has not started.
    pub fn new() -> (r: Self)
        ensures
            r.phase == Phase::Init,
            r.current_commit is None,
            r.last_successful_commit is None,
            r.pre_fetch_commit is None,
            r.consecutive_failures == 0,
            r.last_event_ts == 0,
    {
        ReconcileState {
            phase: Phase::Init,
            current_commit: None,
            last_successful_commit: None,
            pre_fetch_commit: None,
            consecutive_failures: 0,
            last_event_ts: 0,
        }
    }

    /// A copy of this state.
    pub fn clone_state(&self) -> (r: Self)
        ensures
            r == *self,
    {
        ReconcileState {
            phase: self.phase,
            current_commit: clone_text(&self.current_commit),
            last_successful_commit: clone_text(&self.last_successful_commit),
            pre_fetch_commit: clone_text(&self.pre_fetch_commit),
            consecutive_failures: self.consecutive_failures,
            last_event_ts: self.last_event_ts,
        }
    }

    fn failing(&self, phase: Phase, action: Action) -> (r: Option<Transition>)
        ensures
            r == failing(*self, phase, action),
    {
        let mut state = self.clone_state();
        state.phase = phase;
        state.consecutive_failures = if self.consecutive_failures == u64::MAX {
            u64::MAX
        } else {
            self.consecutive_failures + 1
        };
        Some(Transition { state, action, notice: Some(Notice::Failure) })
    }

    fn resting(self, cfg: &LoopSettings) -> (r: Transition)
        ensures
            r == resting(*cfg, self),
    {
        let mut state = self;
        state.phase = Phase::Idle;
        Transition { state, action: Action::Wait(cfg.watch_interval), notice: None }
    }

    fn observing(self, cfg: &LoopSettings, notice: Option<Notice>) -> (r: Transition)
        ensures
            r == observing(*cfg, self, notice),
    {
        if cfg.monitor_logs {
            let mut state = self;
            state.phase = Phase::Observing;
            Transition { state, action: Action::ScanLogs, notice }
        } else {
            let mut t = self.resting(cfg);
            t.notice = notice;
            t
        }
    }

    /// The next state, action and notice after `event`; `None` when the event
    /// does not answer what the current phase asked for.
    pub fn step(&self, cfg: &LoopSettings, event: &Event) -> (r: Option<Transition>)
        ensures
            r == next(*cfg, *self, *event),
    {
        match (self.phase, event) {
            (Phase::Init, Event::Started) => {
                let mut state = self.clone_state();
                state.phase = Phase::Grace;
                Some(Transition { state, action: Action::Wait(cfg.grace_secs), notice: None })
            },
            (Phase::Grace, Event::Waited) => Some(
                Transition { state: self.clone_state(), action: Action::EnsureRepo, notice: None },
            ),
            (Phase::Grace, Event::RepoReady(head)) => {
                let mut state = self.clone_state();
                state.phase = Phase::Fetching;
                state.current_commit = Some(head.clone());
                state.pre_fetch_commit = Some(head.clone());
                Some(Transition { state, action: Action::CheckAndPull, notice: None })
            },
            (Phase::Grace, Event::RepoFailed) => self.failing(Phase::Aborted, Action::Exit),
            (Phase::Idle, Event::Waited) => {
                let mut state = self.clone_state();
                state.phase = Phase::Fetching;
                state.pre_fetch_commit = clone_text(&self.current_commit);
                Some(Transition { state, action: Action::CheckAndPull, notice: None })
            },
            (Phase::Fetching, Event::FetchUnchanged) => Some(self.clone_state().observing(cfg, None)),
            (Phase::Fetching, Event::Pulled(head)) => {
                let mut state = self.clone_state();
                state.phase = Phase::Validating;
                state.current_commit = Some(head.clone());
                Some(Transition { state, action: Action::Validate, notice: None })
            },
            (Phase::Fetching, Event::FetchFailed) => self.failing(
                Phase::Idle,
                Action::Wait(cfg.watch_interval),
            ),
            (Phase::Fetching, Event::MergeConflict) => self.failing(
                Phase::Recovering,
                Action::Revert(clone_text(&self.pre_fetch_commit)),
            ),
            (Phase::Validating, Event::ValidationPassed) => {
                let mut state = self.clone_state();
                state.phase = Phase::Applying;
                Some(
                    Transition {
                        state,
                        action: Action::Apply {
                            fix_issues: cfg.auto_fix,
                            fix_permissions: cfg.fix_permissions,
                            restart: !cfg.disable_restart,
                        },
                        notice: None,
                    },
                )
            },
            (Phase::Validating, Event::ValidationFailed) => {
                if cfg.auto_fix {
                    self.failing(
                        Phase::Recovering,
                        Action::Revert(clone_text(&self.pre_fetch_commit)),
                    )
                } else {
                    self.failing(Phase::Idle, Action::Wait(cfg.watch_interval))
                }
            },
            (Phase::Applying, Event::Applied) => {
                let mut state = self.clone_state();
                state.last_successful_commit = clone_text(&self.current_commit);
                state.consecutive_failures = 0;
                Some(state.observing(cfg, Some(Notice::Success)))
            },
            (Phase::Applying, Event::ApplyFailed) => self.failing(
                Phase::Recovering,
                Action::Revert(clone_text(&self.pre_fetch_commit)),
            ),
            (Phase::Recovering, Event::Reverted) => {
                let mut state = self.clone_state();
                state.current_commit = clone_text(&self.pre_fetch_commit);
                Some(state.resting(cfg))
            },
            (Phase::Recovering, Event::RevertFailed) => Some(self.clone_state().resting(cfg)),
            (Phase::Observing, Event::LogsScanned) => Some(self.clone_state().resting(cfg)),
            _ => None,
        }
    }
}

/// A transition with the time of its event recorded in the new state.
pub open spec fn stamped(r: Option<Transition>, now: u64) -> Option<Transition> {
    match r {
        Some(t) => Some(
            Transition { state: ReconcileState { last_event_ts: now, ..t.state }, ..t },
        ),
        None => None,
    }
}

impl ReconcileState {
    /// As `step`, for an event that arrived at time `now`.
    pub fn step_at(&self, cfg: &LoopSettings, event: &Event, now: u64) -> (r: Option<Transition>)
        ensures
            r == stamped(next(*cfg, *self, *event), now),
    {
        match self.step(cfg, event) {
            Some(t) => {
                let mut t = t;
                t.state.last_event_ts = now;
                Some(t)
            },
            None => None,
        }
    }
}

/// The state after feeding `events` one by one; `None` when one of them does
/// not fit.
pub open spec fn run(cfg: LoopSettings, s: ReconcileState, events: Seq<Event>) -> Option<
    ReconcileState,
>
    decreases events.len(),
{
    if events.len() == 0 {
        Some(s)
    } else {
        match next(cfg, s, events[0]) {
            Some(t) => run(cfg, t.state, events.drop_first()),
            None => None,
        }
    }
}

/// The actions asked for while feeding `events` one by one.
pub open spec fn actions(cfg: LoopSettings, s: ReconcileState, events: Seq<Event>) -> Seq<Action>
    decreases events.len(),
{
    if events.len() == 0 {
        Seq::empty()
    } else {
        match next(cfg, s, events[0]) {
            Some(t) => seq![t.action] + actions(cfg, t.state, events.drop_first()),
            None => Seq::empty(),
        }
    }
}

/// An action that writes to the worktree.
pub open spec fn mutates_worktree(a: Action) -> bool {
    a is EnsureRepo || a is Apply || a is Revert
}

/// One tick in which the remote did not move.
pub open spec fn quiet_tick(cfg: LoopSettings) -> Seq<Event> {
    if cfg.monitor_logs {
        seq![Event::Waited, Event::FetchUnchanged, Event::LogsScanned]
    } else {
        seq![Event::Waited, Event::FetchUnchanged]
    }
}

/// The commit-tracking facts that hold from an idle state on: the commit and
/// the rollback target are each the one from before, or the remote head.
pub open spec fn tracks(s: ReconcileState, before: Option<String>, remote: String) -> bool {
    &&& s.phase != Phase::Init && s.phase != Phase::Grace
    &&& (s.current_commit == before || s.current_commit == Some(remote))
    &&& (s.phase == Phase::Idle || s.pre_fetch_commit == before || s.pre_fetch_commit == Some(
        remote,
    ))
}

/// Every pulled head among `events` is `remote`.
pub open spec fn pulls_only(events: Seq<Event>, remote: String) -> bool {
    forall|i: int| 0 <= i < events.len() && (#[trigger] events[i]) is Pulled ==> events[i]
        == Event::Pulled(remote)
}

proof fn lemma_tracks_step(
    cfg: LoopSettings,
    s: ReconcileState,
    e: Event,
    before: Option<String>,
    remote: String,
)
    requires
        tracks(s, before, remote),
        next(cfg, s, e) is Some,
        e is Pulled ==> e == Event::Pulled(remote),
    ensures
        tracks(next(cfg, s, e)->Some_0.state, before, remote),
{
}

proof fn lemma_tracks_run(
    cfg: LoopSettings,
    s: ReconcileState,
    events: Seq<Event>,
    before: Option<String>,
    remote: String,
)
    requires
        tracks(s, before, remote),
        run(cfg, s, events) is Some,
        pulls_only(events, remote),
    ensures
        tracks(run(cfg, s, events)->Some_0, before, remote),
    decreases events.len(),
{
    if events.len() > 0 {
        assert(events[0] is Pulled ==> events[0] == Event::Pulled(remote));
        lemma_tracks_step(cfg, s, events[0], before, remote);
        let t = next(cfg, s, events[0])->Some_0;
        let rest = events.drop_first();
        assert forall|i: int| 0 <= i < rest.len() && (#[trigger] rest[i]) is Pulled implies rest[i]
            == Event::Pulled(remote) by {
            assert(rest[i] == events[i + 1]);
        }
        lemma_tracks_run(cfg, t.state, rest, before, remote);
    }
}

/// Across any run of ticks from an idle loop, in which every pull brings the
/// remote head, the loop's commit is always either the one it had before or
/// that remote head.
pub proof fn lemma_commit_is_previous_or_remote(
    cfg: LoopSettings,
    s: ReconcileState,
    events: Seq<Event>,
    remote: String,
)
    requires
        s.phase == Phase::Idle,
        run(cfg, s, events) is Some,
        pulls_only(events, remote),
    ensures
        run(cfg, s, events)->Some_0.current_commit == s.current_commit
            || run(cfg, s, events)->Some_0.current_commit == Some(remote),
{
    lemma_tracks_run(cfg, s, events, s.current_commit, remote);
}

/// When applying fails, the loop recovers by resetting to the commit it held
/// before the fetch; once that reset is done, its commit is that pre-fetch
/// commit again and it waits for the next tick.
pub proof fn lemma_failed_apply_restores_pre_fetch(cfg: LoopSettings, s: ReconcileState)
    requires
        s.phase == Phase::Applying,
    ensures
        next(cfg, s, Event::ApplyFailed) is Some,
        next(cfg, s, Event::ApplyFailed)->Some_0.state.phase == Phase::Recovering,
        next(cfg, s, Event::ApplyFailed)->Some_0.action == Action::Revert(s.pre_fetch_commit),
        next(cfg, s, Event::ApplyFailed)->Some_0.notice == Some(Notice::Failure),
        next(cfg, next(cfg, s, Event::ApplyFailed)->Some_0.state, Event::Reverted) is Some,
        next(
            cfg,
            next(cfg, s, Event::ApplyFailed)->Some_0.state,
            Event::Reverted,
        )->Some_0.state.current_commit == s.pre_fetch_commit,
        next(
            cfg,
            next(cfg, s, Event::ApplyFailed)->Some_0.state,
            Event::Reverted,
        )->Some_0.state.phase == Phase::Idle,
{
}

proof fn lemma_run_concat(cfg: LoopSettings, s: ReconcileState, a: Seq<Event>, b: Seq<Event>)
    requires
        run(cfg, s, a) is Some,
    ensures
        run(cfg, s, a + b) == run(cfg, run(cfg, s, a)->Some_0, b),
        actions(cfg, s, a + b) == actions(cfg, s, a) + actions(cfg, run(cfg, s, a)->Some_0, b),
    decreases a.len(),
{
    if a.len() == 0 {
        assert(a + b =~= b);
        assert(actions(cfg, s, a) + actions(cfg, s, b) =~= actions(cfg, s, b));
    } else {
        let t = next(cfg, s, a[0])->Some_0;
        assert((a + b)[0] == a[0]);
        assert((a + b).drop_first() =~= a.drop_first() + b);
        lemma_run_concat(cfg, t.state, a.drop_first(), b);
        assert(seq![t.action] + (actions(cfg, t.state, a.drop_first()) + actions(
            cfg,
            run(cfg, s, a)->Some_0,
            b,
        )) =~= (seq![t.action] + actions(cfg, t.state, a.drop_first())) + actions(
            cfg,
            run(cfg, s, a)->Some_0,
            b,
        ));
    }
}

proof fn lemma_quiet_tick(cfg: LoopSettings, s: ReconcileState)
    requires
        s.phase == Phase::Idle,
    ensures
        run(cfg, s, quiet_tick(cfg)) == Some(
            ReconcileState { pre_fetch_commit: s.current_commit, ..s },
        ),
        forall|i: int|
            0 <= i < actions(cfg, s, quiet_tick(cfg)).len() ==> !mutates_worktree(
                #[trigger] actions(cfg, s, quiet_tick(cfg))[i],
            ),
{
    let q = quiet_tick(cfg);
    let s1 = next(cfg, s, Event::Waited)->Some_0.state;
    let s2 = next(cfg, s1, Event::FetchUnchanged)->Some_0.state;
    assert(q.drop_first().drop_first().drop_first().len() == 0 || !cfg.monitor_logs);
    if cfg.monitor_logs {
        let s3 = next(cfg, s2, Event::LogsScanned)->Some_0.state;
        assert(q.drop_first().drop_first().drop_first() =~= Seq::<Event>::empty());
        assert(run(cfg, s3, q.drop_first().drop_first().drop_first()) == Some(s3));
        assert(run(cfg, s2, q.drop_first().drop_first()) == Some(s3));
        assert(run(cfg, s1, q.drop_first()) == Some(s3));
        assert(s3 == ReconcileState { pre_fetch_commit: s.current_commit, ..s });
        assert(actions(cfg, s3, q.drop_first().drop_first().drop_first()) =~= Seq::<Action>::empty());
        assert(actions(cfg, s2, q.drop_first().drop_first()) =~= seq![Action::Wait(cfg.watch_interval)]);
        assert(actions(cfg, s1, q.drop_first()) =~= seq![Action::ScanLogs, Action::Wait(cfg.watch_interval)]);
        assert(actions(cfg, s, q) =~= seq![Action::CheckAndPull, Action::ScanLogs, Action::Wait(cfg.watch_interval)]);
    } else {
        assert(q.drop_first().drop_first() =~= Seq::<Event>::empty());
        assert(run(cfg, s2, q.drop_first().drop_first()) == Some(s2));
        assert(run(cfg, s1, q.drop_first()) == Some(s2));
        assert(s2 == ReconcileState { pre_fetch_commit: s.current_commit, ..s });
        assert(actions(cfg, s2, q.drop_first().drop_first()) =~= Seq::<Action>::empty());
        assert(actions(cfg, s1, q.drop_first()) =~= seq![Action::Wait(cfg.watch_interval)]);
        assert(actions(cfg, s, q) =~= seq![Action::CheckAndPull, Action::Wait(cfg.watch_interval)]);
    }
}

/// Two ticks in a row with no remote change ask for nothing that writes to
/// the worktree, and leave the loop idle with the commit it had.
pub proof fn lemma_quiet_ticks_leave_worktree_alone(cfg: LoopSettings, s: ReconcileState)
    requires
        s.phase == Phase::Idle,
    ensures
        run(cfg, s, quiet_tick(cfg) + quiet_tick(cfg)) is Some,
        run(cfg, s, quiet_tick(cfg) + quiet_tick(cfg))->Some_0.phase == Phase::Idle,
        run(cfg, s, quiet_tick(cfg) + quiet_tick(cfg))->Some_0.current_commit == s.current_commit,
        forall|i: int|
            0 <= i < actions(cfg, s, quiet_tick(cfg) + quiet_tick(cfg)).len() ==> !mutates_worktree(
                #[trigger] actions(cfg, s, quiet_tick(cfg) + quiet_tick(cfg))[i],
            ),
{
    let q = quiet_tick(cfg);
    lemma_quiet_tick(cfg, s);
    let s1 = run(cfg, s, q)->Some_0;
    lemma_quiet_tick(cfg, s1);
    lemma_run_concat(cfg, s, q, q);
    let all = actions(cfg, s, q + q);
    let a1 = actions(cfg, s, q);
    let a2 = actions(cfg, s1, q);
    assert forall|i: int| 0 <= i < all.len() implies !mutates_worktree(#[trigger] all[i]) by {
        if i < a1.len() {
            assert(all[i] == a1[i]);
        } else {
            assert(all[i] == a2[i - a1.len()]);
        }
    }
}

} // verus!
