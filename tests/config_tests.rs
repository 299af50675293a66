use config_watcher::config::{
    default_log_tail_lines, default_service_type, default_startup_grace_period, default_true,
    default_watch_interval, ConfigError, LegacyConfig, LegacyEnv, Permissions, SettingValue,
};
use config_watcher::{Config, GlobalSettings, ServiceConfig, ServiceType};

#[test]
fn defaults() {
    assert_eq!(default_service_type(), ServiceType::Generic);
    assert_eq!(default_watch_interval(), 60);
    assert_eq!(default_log_tail_lines(), 100);
    assert!(default_true());
    assert_eq!(default_startup_grace_period(), "30s");
    let g = GlobalSettings::default();
    assert_eq!(g.default_branch, "main");
    assert!(g.fix_permissions && g.monitor_logs && !g.auto_fix);
    assert_eq!(g.default_compose_dir.as_deref(), Some("/app/config"));
    let c = Config::default();
    assert_eq!(c.services.len(), 1);
    assert_eq!(c.services[0].container_name, "nginx_app");
}

#[test]
fn effective_options_fall_back_to_globals() {
    let mut s = ServiceConfig::default_nginx();
    s.branch = None;
    s.auto_fix = None;
    s.monitor_logs = None;
    s.disable_restart = None;
    s.permissions = None;
    assert_eq!(s.effective_branch("develop"), "develop");
    assert!(s.effective_auto_fix(true));
    assert!(!s.effective_monitor_logs(false));
    assert!(s.effective_disable_restart(true));
    assert!(s.effective_fix_permissions(true));
    s.branch = Some("release".to_string());
    s.auto_fix = Some(false);
    s.monitor_logs = Some(true);
    s.disable_restart = Some(false);
    s.permissions = Some(Permissions { fix: false, user: "u".to_string(), group: "g".to_string() });
    assert_eq!(s.effective_branch("develop"), "release");
    assert!(!s.effective_auto_fix(true));
    assert!(s.effective_monitor_logs(false));
    assert!(!s.effective_disable_restart(true));
    assert!(!s.effective_fix_permissions(true));
}

#[test]
fn compose_location_fallbacks() {
    let mut s = ServiceConfig::default_nginx();
    let dflt = Some("/d".to_string());
    assert_eq!(s.get_compose_dir(&dflt), Some("/d".to_string()));
    s.docker_compose_dir = Some("/own".to_string());
    assert_eq!(s.get_compose_dir(&dflt), Some("/own".to_string()));
    assert_eq!(s.get_compose_file(&None), None);
}

#[test]
fn legacy_environment_overrides() {
    let mut env = LegacyEnv::default();
    env.repo_url = Some("git@example.com:cfg.git".to_string());
    env.watch_interval = Some("120".to_string());
    env.log_tail_lines = Some("lots".to_string());
    env.use_docker_compose = Some("FALSE".to_string());
    env.auto_fix = Some("TrUe".to_string());
    env.healthcheck_url = Some(String::new());
    env.ssh_private_key = Some("KEY".to_string());
    let l = Config::load_legacy_from_env(&env);
    assert_eq!(l.repo_url, "git@example.com:cfg.git");
    assert_eq!(l.branch, "main");
    assert_eq!(l.watch_interval, 120);
    assert_eq!(l.log_tail_lines, 100);
    assert!(!l.use_docker_compose);
    assert!(l.auto_fix);
    assert_eq!(l.healthcheck_url, None);
    assert_eq!(l.ssh_private_key.as_deref(), Some("KEY"));
    assert_eq!(l.lockfile, "/var/run/nginx_config_watcher.lock");
}

#[test]
fn legacy_conversion() {
    let l = LegacyConfig::default();
    let c = Config::from(&l);
    assert_eq!(c.services.len(), 1);
    let s = &c.services[0];
    assert_eq!(s.name, "nginx");
    assert_eq!(s.restart_command.as_deref(), Some("docker restart nginx"));
    assert_eq!(s.validation_command.as_deref(), Some("docker exec -t nginx nginx -t"));
    assert_eq!(s.custom_settings[0], ("web_root".to_string(), SettingValue::Text("/var/www/html".to_string())));
    assert_eq!(s.custom_settings[1], ("enable_dir_listing".to_string(), SettingValue::Flag(false)));
    assert_eq!(c.global_settings.watch_interval, 300);
    assert_eq!(c.global_settings.startup_grace_period, "30s");
}

#[test]
fn empty_service_list_gets_default() {
    let mut parsed = Config::default();
    parsed.services.clear();
    let c = Config::load_from_json(parsed);
    assert_eq!(c.services.len(), 1);
    assert_eq!(c.services[0].name, "nginx");
}

#[test]
fn nginx_settings() {
    let c = Config::default();
    let n = c.to_nginx_config(0).unwrap();
    assert_eq!(n.nginx_container_name, "nginx_app");
    assert_eq!(n.compose_dir, "/app/config");
    assert_eq!(n.compose_file, "docker-compose.yml");
    assert!(n.monitor_logs);
    assert_eq!(n.log_tail_lines, 100);
    assert!(matches!(c.to_nginx_config(1), Err(ConfigError::ServiceIndexOutOfBounds)));
    let mut g = GlobalSettings::default();
    g.default_compose_dir = None;
    g.default_compose_file = None;
    let n = Config::make_nginx_config(&c.services[0], &g).unwrap();
    assert_eq!(n.compose_dir, ".");
    let mut s = ServiceConfig::default_nginx();
    s.service_type = ServiceType::Apache;
    assert!(matches!(Config::make_nginx_config(&s, &g), Err(ConfigError::NotNginxService)));
}
