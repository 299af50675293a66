use config_watcher::config::{GlobalSettings, ServiceConfig};
use config_watcher::reconcile::{
    Action, Event, LoopError, LoopSettings, Notice, Phase, ReconcileState, Transition,
};
use config_watcher::supervisor::{Supervisor, SupervisorError};
use config_watcher::utils::DurationError;
use config_watcher::Config;

fn settings(auto_fix: bool, monitor_logs: bool) -> LoopSettings {
    LoopSettings {
        grace_secs: 30,
        watch_interval: 60,
        auto_fix,
        fix_permissions: true,
        disable_restart: false,
        monitor_logs,
    }
}

fn idle_at(commit: &str) -> ReconcileState {
    let mut s = ReconcileState::new();
    s.phase = Phase::Idle;
    s.current_commit = Some(commit.to_string());
    s
}

fn step(s: &ReconcileState, cfg: &LoopSettings, e: Event) -> Transition {
    s.step(cfg, &e).expect("event fits the phase")
}

#[test]
fn happy_pull_restart() {
    let cfg = settings(false, true);
    let s = idle_at("A");
    let t = step(&s, &cfg, Event::Waited);
    assert_eq!(t.action, Action::CheckAndPull);
    let t = step(&t.state, &cfg, Event::Pulled("B".to_string()));
    assert_eq!(t.action, Action::Validate);
    let t = step(&t.state, &cfg, Event::ValidationPassed);
    assert_eq!(t.action, Action::Apply { fix_issues: false, fix_permissions: true, restart: true });
    let t = step(&t.state, &cfg, Event::Applied);
    assert_eq!(t.notice, Some(Notice::Success));
    assert_eq!(t.action, Action::ScanLogs);
    assert_eq!(t.state.current_commit, Some("B".to_string()));
    assert_eq!(t.state.last_successful_commit, Some("B".to_string()));
    let t = step(&t.state, &cfg, Event::LogsScanned);
    assert_eq!(t.state.phase, Phase::Idle);
    assert_eq!(t.action, Action::Wait(60));
    assert_eq!(t.state.current_commit, Some("B".to_string()));
}

#[test]
fn merge_conflict_rollback() {
    let cfg = settings(false, true);
    let t = step(&idle_at("A"), &cfg, Event::Waited);
    let t = step(&t.state, &cfg, Event::MergeConflict);
    assert_eq!(t.state.phase, Phase::Recovering);
    assert_eq!(t.action, Action::Revert(Some("A".to_string())));
    assert_eq!(t.notice, Some(Notice::Failure));
    let t = step(&t.state, &cfg, Event::Reverted);
    assert_eq!(t.state.phase, Phase::Idle);
    assert_eq!(t.state.current_commit, Some("A".to_string()));
    assert_eq!(t.state.consecutive_failures, 1);
}

#[test]
fn validation_failure_with_auto_fix_reverts_without_restart() {
    let cfg = settings(true, true);
    let t = step(&idle_at("A"), &cfg, Event::Waited);
    let t = step(&t.state, &cfg, Event::Pulled("B".to_string()));
    assert_eq!(t.state.current_commit, Some("B".to_string()));
    let t = step(&t.state, &cfg, Event::ValidationFailed);
    assert_eq!(t.action, Action::Revert(Some("A".to_string())));
    assert_eq!(t.notice, Some(Notice::Failure));
    let t = step(&t.state, &cfg, Event::Reverted);
    assert_eq!(t.state.current_commit, Some("A".to_string()));
    assert_eq!(t.action, Action::Wait(60));
}

#[test]
fn validation_failure_without_auto_fix_keeps_commit_unapplied() {
    let cfg = settings(false, true);
    let t = step(&idle_at("A"), &cfg, Event::Waited);
    let t = step(&t.state, &cfg, Event::Pulled("B".to_string()));
    let t = step(&t.state, &cfg, Event::ValidationFailed);
    assert_eq!(t.state.phase, Phase::Idle);
    assert_eq!(t.action, Action::Wait(60));
    assert_eq!(t.state.last_successful_commit, None);
}

#[test]
fn container_missing_recovers_and_retries() {
    let cfg = settings(false, false);
    let t = step(&idle_at("A"), &cfg, Event::Waited);
    let t = step(&t.state, &cfg, Event::Pulled("B".to_string()));
    let t = step(&t.state, &cfg, Event::ValidationPassed);
    let t = step(&t.state, &cfg, Event::ApplyFailed);
    assert_eq!(t.state.phase, Phase::Recovering);
    assert_eq!(t.action, Action::Revert(Some("A".to_string())));
    let t = step(&t.state, &cfg, Event::Reverted);
    assert_eq!(t.state.phase, Phase::Idle);
    let t = step(&t.state, &cfg, Event::Waited);
    assert_eq!(t.action, Action::CheckAndPull);
}

#[test]
fn fetch_failure_does_not_revert() {
    let cfg = settings(true, true);
    let t = step(&idle_at("A"), &cfg, Event::Waited);
    let t = step(&t.state, &cfg, Event::FetchFailed);
    assert_eq!(t.state.phase, Phase::Idle);
    assert_eq!(t.action, Action::Wait(60));
    assert_eq!(t.notice, Some(Notice::Failure));
    assert_eq!(t.state.current_commit, Some("A".to_string()));
}

#[test]
fn quiet_ticks_touch_nothing() {
    let cfg = settings(false, true);
    let mut s = idle_at("A");
    for _ in 0..2 {
        let t = step(&s, &cfg, Event::Waited);
        assert_eq!(t.action, Action::CheckAndPull);
        let t = step(&t.state, &cfg, Event::FetchUnchanged);
        assert_eq!(t.action, Action::ScanLogs);
        assert_eq!(t.notice, None);
        let t = step(&t.state, &cfg, Event::LogsScanned);
        assert_eq!(t.action, Action::Wait(60));
        s = t.state;
    }
    assert_eq!(s.current_commit, Some("A".to_string()));
    assert_eq!(s.phase, Phase::Idle);
}

#[test]
fn unexpected_event_is_refused() {
    let cfg = settings(false, true);
    assert!(idle_at("A").step(&cfg, &Event::Applied).is_none());
    assert!(ReconcileState::new().step(&cfg, &Event::Waited).is_none());
}

#[test]
fn grace_period_of_two_minutes_delays_first_fetch() {
    let mut global = GlobalSettings::default();
    global.startup_grace_period = "2m".to_string();
    let service = ServiceConfig::default_nginx();
    let cfg = LoopSettings::for_service(&service, &global).unwrap();
    assert_eq!(cfg.grace_secs, 120);
    let t = step(&ReconcileState::new(), &cfg, Event::Started);
    assert_eq!(t.state.phase, Phase::Grace);
    assert_eq!(t.action, Action::Wait(120));
    let t = step(&t.state, &cfg, Event::Waited);
    assert_eq!(t.action, Action::EnsureRepo);
    let t = step(&t.state, &cfg, Event::RepoReady("A".to_string()));
    assert_eq!(t.state.phase, Phase::Fetching);
    assert_eq!(t.action, Action::CheckAndPull);
    assert_eq!(t.state.current_commit, Some("A".to_string()));
}

#[test]
fn loop_settings_refusals() {
    let mut global = GlobalSettings::default();
    global.startup_grace_period = "soon".to_string();
    let service = ServiceConfig::default_nginx();
    assert_eq!(
        LoopSettings::for_service(&service, &global),
        Err(LoopError::GracePeriod(DurationError::MissingValue))
    );
    let mut global = GlobalSettings::default();
    global.default_compose_dir = None;
    let mut service = ServiceConfig::default_nginx();
    service.restart_command = None;
    assert_eq!(LoopSettings::for_service(&service, &global), Err(LoopError::NoRestartTarget));
    service.disable_restart = Some(true);
    assert!(LoopSettings::for_service(&service, &global).is_ok());
}

fn two_services() -> Config {
    let mut config = Config::default();
    let mut y = ServiceConfig::default_nginx();
    y.name = "y".to_string();
    y.local_path = "/srv/y".to_string();
    let mut x = ServiceConfig::default_nginx();
    x.name = "x".to_string();
    config.services = vec![x, y];
    config
}

#[test]
fn multi_service_isolation() {
    let config = two_services();
    let mut sup = Supervisor::start(&config).unwrap();
    assert_eq!(sup.running(), vec!["x".to_string(), "y".to_string()]);
    for idx in 0..2 {
        sup.deliver(idx, &Event::Started).unwrap();
        sup.deliver(idx, &Event::Waited).unwrap();
    }
    let t = sup.deliver(0, &Event::RepoFailed).unwrap();
    assert_eq!(t.action, Action::Exit);
    assert_eq!(sup.loops[0].state.phase, Phase::Aborted);
    let t = sup.deliver(1, &Event::RepoReady("A".to_string())).unwrap();
    assert_eq!(t.action, Action::CheckAndPull);
    let t = sup.deliver(1, &Event::FetchUnchanged).unwrap();
    assert_eq!(t.action, Action::ScanLogs);
    assert_eq!(sup.loops[0].state.phase, Phase::Aborted);
    assert_eq!(sup.running(), vec!["y".to_string()]);
}

#[test]
fn supervisor_refuses_duplicate_names() {
    let mut config = two_services();
    config.services[1].name = "x".to_string();
    assert!(matches!(Supervisor::start(&config), Err(SupervisorError::DuplicateName(1))));
}

#[test]
fn supervisor_refuses_overlapping_worktrees() {
    let mut config = two_services();
    config.services[1].local_path = "/app/config/nginx/sub".to_string();
    assert!(matches!(Supervisor::start(&config), Err(SupervisorError::OverlappingPath(1))));
    config.services[1].local_path = "/app/config/nginx2".to_string();
    assert!(Supervisor::start(&config).is_ok());
}

#[test]
fn events_are_timestamped() {
    let cfg = settings(false, true);
    let t = ReconcileState::new().step_at(&cfg, &Event::Started, 1_700_000_000).unwrap();
    assert_eq!(t.state.last_event_ts, 1_700_000_000);
    assert_eq!(t.action, Action::Wait(30));
    assert!(idle_at("A").step_at(&cfg, &Event::Applied, 5).is_none());
}
