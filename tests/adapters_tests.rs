use config_watcher::docker::{
    combined_logs, compose_command, compose_recreates, container_status_from,
    detect_docker_compose_command, get_compose_file_arg, join_path, recreate_outcome,
    restart_container, restart_route, restart_subcommand, status_query_args, ComposeStep,
    ContainerStatus, DockerComposeConfig, RestartRoute, RuntimeError,
};
use config_watcher::git::{classify_pull_failure, output_value, EnsurePlan, GitCommand, GitError, GitRepo};
use config_watcher::sync::{CommandOutcome, SyncState};
use config_watcher::logger::{LogLevel, ServiceLogger};
use config_watcher::permissions::{EntryKind, FsEntry, PermissionPolicy};
use config_watcher::service::{
    fixes_issues, run_validation, scans_logs, wait_for_service_ready, PolicyError,
    ReadyDecision, ValidationPlan,
};
use config_watcher::{GlobalSettings, ServiceConfig, ServiceType};

#[test]
fn container_name_match_is_anchored() {
    assert_eq!(container_status_from("nginx_app", "nginx_app_2\n", "nginx_app_2\n"), ContainerStatus::NotExists);
    assert_eq!(container_status_from("nginx_app", "other\nnginx_app\n", ""), ContainerStatus::Running);
    assert_eq!(container_status_from("nginx_app", "", "  nginx_app  \r\n"), ContainerStatus::Stopped);
}

#[test]
fn docker_arguments() {
    assert_eq!(
        status_query_args("web", true),
        vec!["ps", "-a", "--format", "{{.Names}}", "--filter", "name=^web$"]
    );
    assert_eq!(status_query_args("web", false).len(), 5);
    assert_eq!(restart_container("web", ContainerStatus::Running), Ok(vec!["restart".to_string(), "web".to_string()]));
    assert_eq!(restart_container("web", ContainerStatus::Stopped), Ok(vec!["start".to_string(), "web".to_string()]));
    assert_eq!(restart_container("web", ContainerStatus::NotExists), Err(RuntimeError::ContainerMissing));
}

#[test]
fn compose_selection_and_commands() {
    let (tool, v2) = detect_docker_compose_command(true);
    assert_eq!((tool.as_str(), v2), ("docker compose", true));
    let (tool, v2) = detect_docker_compose_command(false);
    assert_eq!((tool.as_str(), v2), ("docker-compose", false));
    let cfg = DockerComposeConfig {
        compose_dir: "/srv".to_string(),
        compose_file: Some("prod.yml".to_string()),
        service_name: "web".to_string(),
    };
    assert_eq!(get_compose_file_arg(&cfg, true, true, true), Ok("-f prod.yml".to_string()));
    assert_eq!(get_compose_file_arg(&cfg, false, true, true), Ok("-f docker-compose.yml".to_string()));
    assert_eq!(get_compose_file_arg(&cfg, false, false, true), Ok("-f compose.yml".to_string()));
    assert_eq!(get_compose_file_arg(&cfg, false, false, false), Err(RuntimeError::ComposeFileMissing));
    assert_eq!(
        compose_command("/srv", "docker compose", "-f prod.yml", &restart_subcommand("web")),
        "cd /srv && docker compose -f prod.yml restart web"
    );
    assert_eq!(join_path("/srv", "compose.yml"), "/srv/compose.yml");
    assert_eq!(join_path("/srv/", "compose.yml"), "/srv/compose.yml");
    assert_eq!(recreate_outcome(false, true, true), Ok(()));
    assert_eq!(recreate_outcome(true, false, true), Err(RuntimeError::CommandFailed(ComposeStep::Build)));
    assert_eq!(recreate_outcome(true, true, false), Err(RuntimeError::CommandFailed(ComposeStep::Up)));
    assert!(compose_recreates(ContainerStatus::NotExists));
    assert!(!compose_recreates(ContainerStatus::Stopped));
    assert_eq!(combined_logs("out", "err"), "out\nerr");
}

#[test]
fn restart_routes() {
    let g = GlobalSettings::default();
    let mut s = ServiceConfig::default_nginx();
    assert!(matches!(restart_route(&s, &g, true, None), Ok(RestartRoute::Command(c)) if c == "docker restart nginx_app"));
    s.restart_command = None;
    assert!(matches!(restart_route(&s, &g, true, None), Ok(RestartRoute::Container(c)) if c == "nginx_app"));
    s.use_docker_compose = true;
    match restart_route(&s, &g, true, None) {
        Ok(RestartRoute::Compose(c)) => {
            assert_eq!(c.compose_dir, "/app/config");
            assert_eq!(c.compose_file.as_deref(), Some("docker-compose.yml"));
            assert_eq!(c.service_name, "nginx_app");
        }
        _ => panic!("expected a compose route"),
    }
    let mut g2 = GlobalSettings::default();
    g2.default_compose_dir = None;
    assert!(matches!(restart_route(&s, &g2, false, None), Err(RuntimeError::NoComposeDir)));
    assert!(matches!(restart_route(&s, &g2, false, Some("/cwd".to_string())), Ok(RestartRoute::Compose(c)) if c.compose_dir == "/cwd"));
    s.service_type = ServiceType::Custom("x".to_string());
    assert!(matches!(restart_route(&s, &g, true, None), Err(RuntimeError::NoRestartCommand)));
    s.disable_restart = Some(true);
    assert!(matches!(restart_route(&s, &g, true, None), Ok(RestartRoute::Skip)));
}

#[test]
fn git_commands_and_outputs() {
    let repo = GitRepo::new("/srv/cfg".to_string(), "https://x/r.git".to_string(), "main".to_string(), None);
    assert_eq!(repo.args(&GitCommand::Clone), vec!["clone", "--depth", "1", "-b", "main", "https://x/r.git", "."]);
    assert_eq!(repo.args(&GitCommand::ResetTo("abc".to_string())), vec!["reset", "--hard", "abc"]);
    assert_eq!(repo.args(&GitCommand::ResetPrevious), vec!["reset", "--hard", "HEAD@{1}"]);
    assert_eq!(repo.args(&GitCommand::CheckoutTracking), vec!["checkout", "-b", "main", "origin/main"]);
    assert_eq!(repo.git_dir(), "/srv/cfg/.git");
    assert_eq!(repo.backup_path(), "/srv/cfg.bak");
    assert_eq!(repo.remote_ref(), "origin/main");
    assert_eq!(repo.args(&GitCommand::RemoteHead), vec!["rev-parse", "origin/main"]);
    assert_eq!(GitRepo::ensure_plan(true, true), EnsurePlan::Update);
    assert_eq!(GitRepo::ensure_plan(false, true), EnsurePlan::Clone { backup: true });
    assert_eq!(output_value(" abc123\n"), "abc123");
    assert_eq!(classify_pull_failure("CONFLICT (content): Merge conflict in a"), GitError::MergeConflict);
    assert_eq!(classify_pull_failure("Automatic merge failed; fix conflicts"), GitError::MergeConflict);
    assert_eq!(classify_pull_failure("fatal: unable to access"), GitError::PullFailed);
    let mut repo = GitRepo::from_service(&ServiceConfig::default_nginx(), &GlobalSettings::default());
    assert_eq!(repo.branch, "main");
    repo.record_head("abc".to_string());
    assert_eq!(repo.current_commit.as_deref(), Some("abc"));
    let missing = GitRepo::new("/nonexistent/worktree".to_string(), String::new(), "main".to_string(), None);
    assert!(!missing.worktree_exists());
}

#[test]
fn service_logger_prefixes() {
    let l = ServiceLogger::new("web");
    let line = l.warn("disk full");
    assert_eq!(line.level, LogLevel::Warn);
    assert_eq!(line.text, "[web] disk full");
    assert_eq!(l.info("x").level, LogLevel::Info);
    assert_eq!(l.error("x").level, LogLevel::Error);
    assert_eq!(l.debug("x").level, LogLevel::Debug);
    assert_eq!(l.trace("x").text, "[web] x");
}

#[test]
fn permission_policy_is_idempotent() {
    let p = PermissionPolicy { user: "nginx".to_string(), group: "www".to_string() };
    let entries = vec![
        FsEntry { name: "conf.d".to_string(), kind: EntryKind::Dir, mode: 0o777, user: "root".to_string(), group: "root".to_string() },
        FsEntry { name: "deploy.sh".to_string(), kind: EntryKind::File, mode: 0o600, user: "root".to_string(), group: "root".to_string() },
        FsEntry { name: "nginx.conf".to_string(), kind: EntryKind::File, mode: 0o666, user: "root".to_string(), group: "root".to_string() },
        FsEntry { name: "link".to_string(), kind: EntryKind::Symlink, mode: 0o777, user: "root".to_string(), group: "root".to_string() },
    ];
    let modes: Vec<u32> = entries.iter().map(|e| p.fix_entry(e).mode).collect();
    assert_eq!(modes, vec![0o750, 0o750, 0o640, 0o777]);
    for e in &entries {
        let once = p.fix_entry(e);
        assert_eq!(p.fix_entry(&once), once);
    }
    assert_eq!(p.fix_entry(&entries[0]).user, "nginx");
    assert_eq!(p.fix_entry(&entries[3]).user, "root");
    assert_eq!(p.mode_for(EntryKind::Symlink, "x"), None);
}

#[test]
fn service_type_policy() {
    let mut s = ServiceConfig::default_nginx();
    assert_eq!(run_validation(&s), Ok(ValidationPlan::Command("docker exec -t nginx_app nginx -t".to_string())));
    s.validation_command = None;
    assert_eq!(run_validation(&s), Ok(ValidationPlan::NginxConfigTest));
    s.service_type = ServiceType::Generic;
    assert_eq!(run_validation(&s), Ok(ValidationPlan::Skip));
    s.service_type = ServiceType::Custom("t".to_string());
    assert_eq!(run_validation(&s), Err(PolicyError::MissingValidationCommand));
    assert!(scans_logs(&ServiceType::Apache));
    assert!(!scans_logs(&ServiceType::Generic));
    assert!(fixes_issues(&ServiceType::Nginx));
    assert!(!fixes_issues(&ServiceType::Apache));
    assert_eq!(wait_for_service_ready(1, 3, ContainerStatus::Running), ReadyDecision::Ready);
    assert_eq!(wait_for_service_ready(1, 3, ContainerStatus::Stopped), ReadyDecision::Retry);
    assert_eq!(wait_for_service_ready(3, 3, ContainerStatus::Stopped), ReadyDecision::GiveUp);
}

fn ok(stdout: &str) -> CommandOutcome {
    CommandOutcome { success: true, stdout: stdout.to_string(), stderr: String::new() }
}

fn failed(stderr: &str) -> CommandOutcome {
    CommandOutcome { success: false, stdout: String::new(), stderr: stderr.to_string() }
}

fn drive(outcomes: Vec<CommandOutcome>) -> (Vec<GitCommand>, SyncState) {
    let (mut state, first) = SyncState::start();
    let mut cmds = vec![first];
    for o in outcomes {
        let (next, cmd) = state.step("main", &o);
        state = next;
        match cmd {
            Some(c) => cmds.push(c),
            None => break,
        }
    }
    (cmds, state)
}

#[test]
fn update_without_remote_change_only_reads() {
    let (cmds, state) = drive(vec![ok("main\n"), ok("aaa\n"), ok(""), ok("aaa\n")]);
    assert_eq!(cmds, vec![GitCommand::CurrentBranch, GitCommand::Head, GitCommand::Fetch, GitCommand::RemoteHead]);
    assert!(matches!(state, SyncState::Done(Ok(None))));
}

#[test]
fn update_pulls_with_stash_around_local_changes() {
    let (cmds, state) = drive(vec![ok("main"), ok("aaa"), ok(""), ok("bbb"), ok(" M a.conf"), ok(""), ok(""), ok("")]);
    assert_eq!(
        cmds,
        vec![
            GitCommand::CurrentBranch, GitCommand::Head, GitCommand::Fetch, GitCommand::RemoteHead,
            GitCommand::Status, GitCommand::Stash, GitCommand::Pull, GitCommand::StashPop,
        ]
    );
    assert!(matches!(state, SyncState::Done(Ok(Some(ref h))) if h == "bbb"));
}

#[test]
fn update_resets_after_conflict() {
    let (cmds, state) = drive(vec![
        ok("main"), ok("aaa"), ok(""), ok("bbb"), ok(""),
        failed("CONFLICT (content): Merge conflict in site.conf"), ok(""),
    ]);
    assert_eq!(cmds.last(), Some(&GitCommand::ResetTo("aaa".to_string())));
    assert!(matches!(state, SyncState::Done(Err(GitError::MergeConflict))));
    let (_, state) = drive(vec![ok("main"), ok("aaa"), ok(""), ok("bbb"), ok(""), failed("network down")]);
    assert!(matches!(state, SyncState::Done(Err(GitError::PullFailed))));
    let (_, state) = drive(vec![ok("main"), ok("aaa"), failed("could not read from remote")]);
    assert!(matches!(state, SyncState::Done(Err(GitError::FetchFailed))));
}

#[test]
fn update_switches_branches() {
    let (cmds, _) = drive(vec![ok("dev"), ok(""), ok(""), ok(""), ok("abc refs/heads/main"), ok(""), ok("aaa")]);
    assert_eq!(
        cmds,
        vec![
            GitCommand::CurrentBranch, GitCommand::Status, GitCommand::ListLocalBranch, GitCommand::Fetch,
            GitCommand::ListRemoteBranch, GitCommand::CheckoutTracking, GitCommand::Head, GitCommand::Fetch,
        ]
    );
    let (_, state) = drive(vec![ok("dev"), ok(""), ok(""), ok(""), ok("")]);
    assert!(matches!(state, SyncState::Done(Err(GitError::BranchMissing))));
    let (cmds, _) = drive(vec![ok("dev"), ok(" M x"), ok(""), ok("  main"), ok(""), ok("")]);
    assert_eq!(
        cmds,
        vec![
            GitCommand::CurrentBranch, GitCommand::Status, GitCommand::Stash, GitCommand::ListLocalBranch,
            GitCommand::Checkout, GitCommand::StashPop, GitCommand::Head,
        ]
    );
}
