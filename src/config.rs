//! The configuration model: global defaults, per-service settings, the legacy
//! single-service form, and the effective value of each override.
use vstd::prelude::*;
use crate::nginx::Config as NginxConfig;
use crate::text::{clone_text, is_true_word, opt_view, true_word};
use crate::utils::{decimal_of, parse_decimal};

verus! {

/// How a service is validated, fixed, restarted and observed.
#[derive(Debug, Clone, PartialEq, Eq)]
pub enum ServiceType {
    Nginx,
    Apache,
    Generic,
    Custom(String),
}

/// Ownership to apply to a service's files.
#[derive(Debug, Clone, PartialEq, Eq)]
pub struct Permissions {
    pub fix: bool,
    pub user: String,
    pub group: String,
}

/// A value of a service-specific setting, as far as the logic reads it.
#[derive(Debug, Clone, PartialEq, Eq)]
pub enum SettingValue {
    Text(String),
    Flag(bool),
    /// Any other value (a number, a list, an object, null).
    Other,
}

/// One reconciled unit: a repository, a local worktree and a container.
#[derive(Debug, Clone)]
pub struct ServiceConfig {
    pub name: String,
    pub container_name: String,
    pub service_type: ServiceType,
    pub repo_url: String,
    pub branch: Option<String>,
    pub local_path: String,
    pub use_docker_compose: bool,
    pub docker_compose_file: Option<String>,
    pub docker_compose_dir: Option<String>,
    pub restart_command: Option<String>,
    pub validation_command: Option<String>,
    pub disable_restart: Option<bool>,
    pub healthcheck_url: Option<String>,
    pub auto_fix: Option<bool>,
    pub monitor_logs: Option<bool>,
    pub log_tail_lines: u32,
    pub permissions: Option<Permissions>,
    /// Free-form extras, by key; the first entry of a key is the one read.
    pub custom_settings: Vec<(String, SettingValue)>,
}

/// Process-wide defaults.
#[derive(Debug, Clone)]
pub struct GlobalSettings {
    pub watch_interval: u64,
    pub default_branch: String,
    pub auto_fix: bool,
    pub fix_permissions: bool,
    pub monitor_logs: bool,
    pub disable_restart: bool,
    pub use_docker_compose: bool,
    pub default_compose_dir: Option<String>,
    pub default_compose_file: Option<String>,
    pub startup_grace_period: String,
}

/// All services of a run and the defaults they fall back to.
#[derive(Debug, Clone)]
pub struct Config {
    pub services: Vec<ServiceConfig>,
    pub global_settings: GlobalSettings,
}

/// The single-service configuration read from environment variables.
#[derive(Debug, Clone)]
pub struct LegacyConfig {
    pub repo_url: String,
    pub branch: String,
    pub watch_interval: u64,
    pub ssh_private_key: Option<String>,
    pub nginx_container_name: String,
    pub use_docker_compose: bool,
    pub compose_file: String,
    pub compose_dir: String,
    pub config_dir: String,
    pub lockfile: String,
    pub web_root: String,
    pub verbose: bool,
    pub disable_restart: bool,
    pub healthcheck_url: Option<String>,
    pub auto_fix: bool,
    pub monitor_logs: bool,
    pub log_tail_lines: u32,
    pub fix_permissions: bool,
    pub enable_dir_listing: bool,
    pub nginx_user: String,
    pub nginx_group: String,
}

/// The environment variables of the legacy form, each as read (`None` when unset).
#[derive(Debug, Clone, Default)]
pub struct LegacyEnv {
    pub repo_url: Option<String>,
    pub branch: Option<String>,
    pub watch_interval: Option<String>,
    pub nginx_container_name: Option<String>,
    pub config_dir: Option<String>,
    pub lockfile: Option<String>,
    pub use_docker_compose: Option<String>,
    pub compose_file: Option<String>,
    pub compose_dir: Option<String>,
    pub verbose: Option<String>,
    pub disable_restart: Option<String>,
    pub healthcheck_url: Option<String>,
    pub auto_fix: Option<String>,
    pub monitor_logs: Option<String>,
    pub log_tail_lines: Option<String>,
    pub fix_permissions: Option<String>,
    pub nginx_user: Option<String>,
    pub nginx_group: Option<String>,
    pub web_root: Option<String>,
    pub enable_dir_listing: Option<String>,
    pub ssh_private_key: Option<String>,
}

/// Why a simplified Nginx configuration could not be made.
#[derive(Debug, Clone, Copy, PartialEq, Eq)]
pub enum ConfigError {
    ServiceIndexOutOfBounds,
    NotNginxService,
}

/// The override when it is set, else the default.
pub open spec fn overridden<T>(o: Option<T>, default: T) -> T {
    match o {
        Some(v) => v,
        None => default,
    }
}

/// A text variable's value when it is set, else the default.
pub open spec fn env_text(v: Option<String>, default: Seq<char>) -> Seq<char> {
    match v {
        Some(s) => s@,
        None => default,
    }
}

/// A boolean variable: set means "is it the word `true`".
pub open spec fn env_flag(v: Option<String>, default: bool) -> bool {
    match v {
        Some(s) => is_true_word(s@),
        None => default,
    }
}

/// A numeric variable: kept when it parses and fits under `max`, else the default.
pub open spec fn env_number(v: Option<String>, default: int, max: int) -> int {
    match v {
        Some(s) => match decimal_of(s@) {
            Some(n) => if n <= max {
                n
            } else {
                default
            },
            None => default,
        },
        None => default,
    }
}

/// A variable whose empty value counts as unset.
pub open spec fn env_nonempty(v: Option<String>, default: Option<Seq<char>>) -> Option<
    Seq<char>,
> {
    match v {
        Some(s) => if s@.len() > 0 {
            Some(s@)
        } else {
            default
        },
        None => default,
    }
}

pub open spec fn is_nginx(t: ServiceType) -> bool {
    t is Nginx
}

/// `s` is the built-in Nginx service.
pub open spec fn is_default_nginx(s: ServiceConfig) -> bool {
    &&& s.name@ == "nginx"@
    &&& s.container_name@ == "nginx_app"@
    &&& s.service_type is Nginx
    &&& s.repo_url@ == "https://github.com/nuniesmith/nginx.git"@
    &&& opt_view(s.branch) == Some("main"@)
    &&& s.local_path@ == "/app/config/nginx"@
    &&& !s.use_docker_compose
    &&& s.docker_compose_file is None
    &&& s.docker_compose_dir is None
    &&& opt_view(s.restart_command) == Some("docker restart nginx_app"@)
    &&& opt_view(s.validation_command) == Some("docker exec -t nginx_app nginx -t"@)
    &&& s.disable_restart == Some(false)
    &&& s.healthcheck_url is None
    &&& s.auto_fix is None
    &&& s.monitor_logs == Some(true)
    &&& s.log_tail_lines == 100
    &&& s.permissions is Some
    &&& s.permissions->Some_0.fix
    &&& s.permissions->Some_0.user@ == "nginx"@
    &&& s.permissions->Some_0.group@ == "nginx"@
    &&& s.custom_settings@.len() == 0
}

/// `g` holds the process-wide defaults.
pub open spec fn is_default_global(g: GlobalSettings) -> bool {
    &&& g.watch_interval == 60
    &&& g.default_branch@ == "main"@
    &&& !g.auto_fix
    &&& g.fix_permissions
    &&& g.monitor_logs
    &&& !g.disable_restart
    &&& !g.use_docker_compose
    &&& opt_view(g.default_compose_dir) == Some("/app/config"@)
    &&& opt_view(g.default_compose_file) == Some("docker-compose.yml"@)
    &&& g.startup_grace_period@ == "30s"@
}

pub fn default_service_type() -> (r: ServiceType)
    ensures
        r is Generic,
{
    ServiceType::Generic
}

pub fn default_watch_interval() -> (r: u64)
    ensures
        r == 60,
{
    60
}

pub fn default_log_tail_lines() -> (r: u32)
    ensures
        r == 100,
{
    100
}

pub fn default_true() -> (r: bool)
    ensures
        r,
{
    true
}

pub fn default_startup_grace_period() -> (r: String)
    ensures
        r@ == "30s"@,
{
    String::from_str("30s")
}

impl Default for GlobalSettings {
    fn default() -> (r: Self)
        ensures
            is_default_global(r),
    {
        GlobalSettings {
            watch_interval: default_watch_interval(),
            default_branch: String::from_str("main"),
            auto_fix: false,
            fix_permissions: default_true(),
            monitor_logs: default_true(),
            disable_restart: false,
            use_docker_compose: false,
            default_compose_dir: Some(String::from_str("/app/config")),
            default_compose_file: Some(String::from_str("docker-compose.yml")),
            startup_grace_period: default_startup_grace_period(),
        }
    }
}

impl Default for Config {
    fn default() -> (r: Self)
        ensures
            is_default_global(r.global_settings),
            r.services@.len() == 1,
            is_default_nginx(r.services@[0]),
    {
        let mut services: Vec<ServiceConfig> = Vec::new();
        services.push(ServiceConfig::default_nginx());
        Config { global_settings: GlobalSettings::default(), services }
    }
}

impl ServiceConfig {
    /// The built-in Nginx service.
    pub fn default_nginx() -> (r: Self)
        ensures
            is_default_nginx(r),
    {
        ServiceConfig {
            name: String::from_str("nginx"),
            container_name: String::from_str("nginx_app"),
            service_type: ServiceType::Nginx,
            repo_url: String::from_str("https://github.com/nuniesmith/nginx.git"),
            branch: Some(String::from_str("main")),
            local_path: String::from_str("/app/config/nginx"),
            use_docker_compose: false,
            docker_compose_file: None,
            docker_compose_dir: None,
            restart_command: Some(String::from_str("docker restart nginx_app")),
            validation_command: Some(String::from_str("docker exec -t nginx_app nginx -t")),
            disable_restart: Some(false),
            healthcheck_url: None,
            auto_fix: None,
            monitor_logs: Some(true),
            log_tail_lines: default_log_tail_lines(),
            permissions: Some(
                Permissions {
                    fix: true,
                    user: String::from_str("nginx"),
                    group: String::from_str("nginx"),
                },
            ),
            custom_settings: Vec::new(),
        }
    }

    /// The branch to track: the service's own, else the default.
    pub fn effective_branch(&self, default: &str) -> (r: String)
        ensures
            r@ == overridden(opt_view(self.branch), default@),
    {
        match &self.branch {
            Some(b) => b.clone(),
            None => String::from_str(default),
        }
    }

    pub fn effective_auto_fix(&self, default: bool) -> (r: bool)
        ensures
            r == overridden(self.auto_fix, default),
    {
        match self.auto_fix {
            Some(v) => v,
            None => default,
        }
    }

    pub fn effective_monitor_logs(&self, default: bool) -> (r: bool)
        ensures
            r == overridden(self.monitor_logs, default),
    {
        match self.monitor_logs {
            Some(v) => v,
            None => default,
        }
    }

    pub fn effective_disable_restart(&self, default: bool) -> (r: bool)
        ensures
            r == overridden(self.disable_restart, default),
    {
        match self.disable_restart {
            Some(v) => v,
            None => default,
        }
    }

    /// The permissions policy's `fix` when a policy is set, else the default.
    pub fn effective_fix_permissions(&self, default: bool) -> (r: bool)
        ensures
            r == match self.permissions {
                Some(p) => p.fix,
                None => default,
            },
    {
        match &self.permissions {
            Some(p) => p.fix,
            None => default,
        }
    }

    pub fn get_compose_dir(&self, default_dir: &Option<String>) -> (r: Option<String>)
        ensures
            r == overridden(
                match self.docker_compose_dir {
                    Some(d) => Some(Some(d)),
                    None => None,
                },
                *default_dir,
            ),
    {
        match &self.docker_compose_dir {
            Some(d) => Some(d.clone()),
            None => clone_text(default_dir),
        }
    }

    pub fn get_compose_file(&self, default_file: &Option<String>) -> (r: Option<String>)
        ensures
            r == overridden(
                match self.docker_compose_file {
                    Some(f) => Some(Some(f)),
                    None => None,
                },
                *default_file,
            ),
    {
        match &self.docker_compose_file {
            Some(f) => Some(f.clone()),
            None => clone_text(default_file),
        }
    }
}

impl LegacyConfig {
    /// The defaults of the legacy form.
    pub fn default() -> (r: Self)
        ensures
            r.repo_url@ == "https://github.com/nuniesmith/nginx.git"@,
            r.branch@ == "main"@,
            r.watch_interval == 300,
            r.ssh_private_key is None,
            r.nginx_container_name@ == "nginx"@,
            r.use_docker_compose,
            r.compose_file@ == "docker-compose.yml"@,
            r.compose_dir@ == "/app/config"@,
            r.config_dir@ == "/app/config"@,
            r.lockfile@ == "/var/run/nginx_config_watcher.lock"@,
            r.web_root@ == "/var/www/html"@,
            !r.verbose,
            !r.disable_restart,
            r.healthcheck_url is None,
            !r.auto_fix,
            r.monitor_logs,
            r.log_tail_lines == 100,
            r.fix_permissions,
            !r.enable_dir_listing,
            r.nginx_user@ == "nginx"@,
            r.nginx_group@ == "nginx"@,
    {
        LegacyConfig {
            repo_url: String::from_str("https://github.com/nuniesmith/nginx.git"),
            branch: String::from_str("main"),
            watch_interval: 300,
            ssh_private_key: None,
            nginx_container_name: String::from_str("nginx"),
            use_docker_compose: true,
            compose_file: String::from_str("docker-compose.yml"),
            compose_dir: String::from_str("/app/config"),
            config_dir: String::from_str("/app/config"),
            lockfile: String::from_str("/var/run/nginx_config_watcher.lock"),
            web_root: String::from_str("/var/www/html"),
            verbose: false,
            disable_restart: false,
            healthcheck_url: None,
            auto_fix: false,
            monitor_logs: true,
            log_tail_lines: 100,
            fix_permissions: true,
            enable_dir_listing: false,
            nginx_user: String::from_str("nginx"),
            nginx_group: String::from_str("nginx"),
        }
    }
}

fn text_or(v: &Option<String>, default: String) -> (r: String)
    ensures
        r@ == env_text(*v, default@),
{
    match v {
        Some(s) => s.clone(),
        None => default,
    }
}

fn flag_or(v: &Option<String>, default: bool) -> (r: bool)
    ensures
        r == env_flag(*v, default),
{
    match v {
        Some(s) => true_word(s.as_str()),
        None => default,
    }
}

fn number_or(v: &Option<String>, default: u64, max: u64) -> (r: u64)
    requires
        default <= max,
    ensures
        r == env_number(*v, default as int, max as int),
        r <= max,
{
    match v {
        Some(s) => match parse_decimal(s.as_str(), max) {
            Some(n) => n,
            None => default,
        },
        None => default,
    }
}

fn nonempty_or(v: &Option<String>, default: Option<String>) -> (r: Option<String>)
    ensures
        opt_view(r) == env_nonempty(*v, opt_view(default)),
{
    match v {
        Some(s) => if s.unicode_len() > 0 {
            Some(s.clone())
        } else {
            default
        },
        None => default,
    }
}

impl Config {
    /// The legacy single-service configuration: each variable that is set
    /// replaces the default; booleans are the word `true` in any case, numbers
    /// that do not parse keep the default, empty optional values count as unset.
    pub fn load_legacy_from_env(env: &LegacyEnv) -> (r: LegacyConfig)
        ensures
            r.repo_url@ == env_text(env.repo_url, "https://github.com/nuniesmith/nginx.git"@),
            r.branch@ == env_text(env.branch, "main"@),
            r.watch_interval == env_number(env.watch_interval, 300, u64::MAX as int),
            r.nginx_container_name@ == env_text(env.nginx_container_name, "nginx"@),
            r.config_dir@ == env_text(env.config_dir, "/app/config"@),
            r.lockfile@ == env_text(env.lockfile, "/var/run/nginx_config_watcher.lock"@),
            r.use_docker_compose == env_flag(env.use_docker_compose, true),
            r.compose_file@ == env_text(env.compose_file, "docker-compose.yml"@),
            r.compose_dir@ == env_text(env.compose_dir, "/app/config"@),
            r.verbose == env_flag(env.verbose, false),
            r.disable_restart == env_flag(env.disable_restart, false),
            opt_view(r.healthcheck_url) == env_nonempty(env.healthcheck_url, None),
            r.auto_fix == env_flag(env.auto_fix, false),
            r.monitor_logs == env_flag(env.monitor_logs, true),
            r.log_tail_lines == env_number(env.log_tail_lines, 100, u32::MAX as int),
            r.fix_permissions == env_flag(env.fix_permissions, true),
            r.nginx_user@ == env_text(env.nginx_user, "nginx"@),
            r.nginx_group@ == env_text(env.nginx_group, "nginx"@),
            r.web_root@ == env_text(env.web_root, "/var/www/html"@),
            r.enable_dir_listing == env_flag(env.enable_dir_listing, false),
            opt_view(r.ssh_private_key) == env_nonempty(env.ssh_private_key, None),
    {
        let d = LegacyConfig::default();
        LegacyConfig {
            repo_url: text_or(&env.repo_url, d.repo_url),
            branch: text_or(&env.branch, d.branch),
            watch_interval: number_or(&env.watch_interval, d.watch_interval, u64::MAX),
            ssh_private_key: nonempty_or(&env.ssh_private_key, d.ssh_private_key),
            nginx_container_name: text_or(&env.nginx_container_name, d.nginx_container_name),
            use_docker_compose: flag_or(&env.use_docker_compose, d.use_docker_compose),
            compose_file: text_or(&env.compose_file, d.compose_file),
            compose_dir: text_or(&env.compose_dir, d.compose_dir),
            config_dir: text_or(&env.config_dir, d.config_dir),
            lockfile: text_or(&env.lockfile, d.lockfile),
            web_root: text_or(&env.web_root, d.web_root),
            verbose: flag_or(&env.verbose, d.verbose),
            disable_restart: flag_or(&env.disable_restart, d.disable_restart),
            healthcheck_url: nonempty_or(&env.healthcheck_url, d.healthcheck_url),
            auto_fix: flag_or(&env.auto_fix, d.auto_fix),
            monitor_logs: flag_or(&env.monitor_logs, d.monitor_logs),
            log_tail_lines: number_or(&env.log_tail_lines, d.log_tail_lines as u64, u32::MAX as u64)
                as u32,
            fix_permissions: flag_or(&env.fix_permissions, d.fix_permissions),
            enable_dir_listing: flag_or(&env.enable_dir_listing, d.enable_dir_listing),
            nginx_user: text_or(&env.nginx_user, d.nginx_user),
            nginx_group: text_or(&env.nginx_group, d.nginx_group),
        }
    }

    /// The multi-service form of a legacy configuration: one Nginx service
    /// named `nginx`, and global settings taken from the same values.
    pub fn from(legacy: &LegacyConfig) -> (r: Config)
        ensures
            r.services@.len() == 1,
            r.services@[0].name@ == "nginx"@,
            r.services@[0].container_name == legacy.nginx_container_name,
            r.services@[0].service_type is Nginx,
            r.services@[0].repo_url == legacy.repo_url,
            r.services@[0].branch == Some(legacy.branch),
            r.services@[0].local_path == legacy.config_dir,
            r.services@[0].use_docker_compose == legacy.use_docker_compose,
            r.services@[0].docker_compose_file == Some(legacy.compose_file),
            r.services@[0].docker_compose_dir == Some(legacy.compose_dir),
            opt_view(r.services@[0].restart_command) == Some(
                "docker restart "@ + legacy.nginx_container_name@,
            ),
            opt_view(r.services@[0].validation_command) == Some(
                "docker exec -t "@ + legacy.nginx_container_name@ + " nginx -t"@,
            ),
            r.services@[0].disable_restart == Some(legacy.disable_restart),
            r.services@[0].healthcheck_url == legacy.healthcheck_url,
            r.services@[0].auto_fix == Some(legacy.auto_fix),
            r.services@[0].monitor_logs == Some(legacy.monitor_logs),
            r.services@[0].log_tail_lines == legacy.log_tail_lines,
            r.services@[0].permissions == Some(
                (Permissions {
                    fix: legacy.fix_permissions,
                    user: legacy.nginx_user,
                    group: legacy.nginx_group,
                }),
            ),
            r.services@[0].custom_settings@.len() == 2,
            r.services@[0].custom_settings@[0].0@ == "web_root"@,
            r.services@[0].custom_settings@[0].1 == SettingValue::Text(legacy.web_root),
            r.services@[0].custom_settings@[1].0@ == "enable_dir_listing"@,
            r.services@[0].custom_settings@[1].1 == SettingValue::Flag(legacy.enable_dir_listing),
            r.global_settings.watch_interval == legacy.watch_interval,
            r.global_settings.default_branch == legacy.branch,
            r.global_settings.auto_fix == legacy.auto_fix,
            r.global_settings.fix_permissions == legacy.fix_permissions,
            r.global_settings.monitor_logs == legacy.monitor_logs,
            r.global_settings.disable_restart == legacy.disable_restart,
            r.global_settings.use_docker_compose == legacy.use_docker_compose,
            r.global_settings.default_compose_dir == Some(legacy.compose_dir),
            r.global_settings.default_compose_file == Some(legacy.compose_file),
            r.global_settings.startup_grace_period@ == "30s"@,
    {
        let mut custom_settings: Vec<(String, SettingValue)> = Vec::new();
        custom_settings.push(
            (String::from_str("web_root"), SettingValue::Text(legacy.web_root.clone())),
        );
        custom_settings.push(
            (String::from_str("enable_dir_listing"), SettingValue::Flag(legacy.enable_dir_listing)),
        );
        let service = ServiceConfig {
            name: String::from_str("nginx"),
            container_name: legacy.nginx_container_name.clone(),
            service_type: ServiceType::Nginx,
            repo_url: legacy.repo_url.clone(),
            branch: Some(legacy.branch.clone()),
            local_path: legacy.config_dir.clone(),
            use_docker_compose: legacy.use_docker_compose,
            docker_compose_file: Some(legacy.compose_file.clone()),
            docker_compose_dir: Some(legacy.compose_dir.clone()),
            restart_command: Some(
                String::from_str("docker restart ").concat(legacy.nginx_container_name.as_str()),
            ),
            validation_command: Some(
                String::from_str("docker exec -t ").concat(
                    legacy.nginx_container_name.as_str(),
                ).concat(" nginx -t"),
            ),
            disable_restart: Some(legacy.disable_restart),
            healthcheck_url: clone_text(&legacy.healthcheck_url),
            auto_fix: Some(legacy.auto_fix),
            monitor_logs: Some(legacy.monitor_logs),
            log_tail_lines: legacy.log_tail_lines,
            permissions: Some(
                Permissions {
                    fix: legacy.fix_permissions,
                    user: legacy.nginx_user.clone(),
                    group: legacy.nginx_group.clone(),
                },
            ),
            custom_settings,
        };
        let global = GlobalSettings {
            watch_interval: legacy.watch_interval,
            default_branch: legacy.branch.clone(),
            auto_fix: legacy.auto_fix,
            fix_permissions: legacy.fix_permissions,
            monitor_logs: legacy.monitor_logs,
            disable_restart: legacy.disable_restart,
            use_docker_compose: legacy.use_docker_compose,
            default_compose_dir: Some(legacy.compose_dir.clone()),
            default_compose_file: Some(legacy.compose_file.clone()),
            startup_grace_period: String::from_str("30s"),
        };
        let mut services: Vec<ServiceConfig> = Vec::new();
        services.push(service);
        Config { global_settings: global, services }
    }

    /// A parsed multi-service configuration, with the built-in Nginx service
    /// added when it lists none.
    pub fn load_from_json(parsed: Config) -> (r: Config)
        ensures
            parsed.services@.len() > 0 ==> r == parsed,
            parsed.services@.len() == 0 ==> r.services@.len() == 1 && is_default_nginx(
                r.services@[0],
            ) && r.global_settings == parsed.global_settings,
    {
        let mut config = parsed;
        if config.services.len() == 0 {
            config.services.push(ServiceConfig::default_nginx());
        }
        config
    }

    /// The simplified Nginx settings of the service at `service_idx`.
    pub fn to_nginx_config(&self, service_idx: usize) -> (r: Result<NginxConfig, ConfigError>)
        ensures
            service_idx >= self.services@.len() ==> r == Err::<NginxConfig, ConfigError>(
                ConfigError::ServiceIndexOutOfBounds,
            ),
            service_idx < self.services@.len() && !is_nginx(
                self.services@[service_idx as int].service_type,
            ) ==> r == Err::<NginxConfig, ConfigError>(ConfigError::NotNginxService),
            service_idx < self.services@.len() && is_nginx(
                self.services@[service_idx as int].service_type,
            ) ==> r is Ok && nginx_settings_of(
                r->Ok_0,
                self.services@[service_idx as int],
                self.global_settings,
            ),
    {
        if service_idx >= self.services.len() {
            return Err(ConfigError::ServiceIndexOutOfBounds);
        }
        Config::make_nginx_config(&self.services[service_idx], &self.global_settings)
    }

    /// The simplified Nginx settings of a service, or `NotNginxService`.
    pub fn make_nginx_config(service: &ServiceConfig, global: &GlobalSettings) -> (r: Result<
        NginxConfig,
        ConfigError,
    >)
        ensures
            !is_nginx(service.service_type) ==> r == Err::<NginxConfig, ConfigError>(
                ConfigError::NotNginxService,
            ),
            is_nginx(service.service_type) ==> r is Ok && nginx_settings_of(
                r->Ok_0,
                *service,
                *global,
            ),
    {
        if !matches!(service.service_type, ServiceType::Nginx) {
            return Err(ConfigError::NotNginxService);
        }
        let compose_dir = match service.get_compose_dir(&global.default_compose_dir) {
            Some(d) => d,
            None => String::from_str("."),
        };
        let compose_file = match service.get_compose_file(&global.default_compose_file) {
            Some(f) => f,
            None => String::from_str("docker-compose.yml"),
        };
        Ok(
            NginxConfig {
                nginx_container_name: service.container_name.clone(),
                compose_dir,
                compose_file,
                use_docker_compose: service.use_docker_compose || global.use_docker_compose,
                disable_restart: service.effective_disable_restart(global.disable_restart),
                monitor_logs: service.effective_monitor_logs(global.monitor_logs),
                log_tail_lines: service.log_tail_lines,
                force_rebuild: None,
            },
        )
    }
}

/// `n` holds the simplified Nginx settings of `service`: each compose
/// location falls back to the global default, then to `.` and
/// `docker-compose.yml`; compose use is either side's; the behaviour switches
/// are the effective options.
pub open spec fn nginx_settings_of(n: NginxConfig, service: ServiceConfig, global: GlobalSettings) -> bool {
    &&& n.nginx_container_name == service.container_name
    &&& n.compose_dir@ == overridden(
        opt_view(service.docker_compose_dir),
        overridden(opt_view(global.default_compose_dir), "."@),
    )
    &&& n.compose_file@ == overridden(
        opt_view(service.docker_compose_file),
        overridden(opt_view(global.default_compose_file), "docker-compose.yml"@),
    )
    &&& n.use_docker_compose == (service.use_docker_compose || global.use_docker_compose)
    &&& n.disable_restart == overridden(service.disable_restart, global.disable_restart)
    &&& n.monitor_logs == overridden(service.monitor_logs, global.monitor_logs)
    &&& n.log_tail_lines == service.log_tail_lines
    &&& n.force_rebuild is None
}

} // verus!
