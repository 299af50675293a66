//! The container runtime adapter's decisions: reading container listings,
//! choosing between restart and start, selecting compose files and building
//! compose command lines, and scanning container logs.
use vstd::prelude::*;
use crate::config::{overridden, GlobalSettings, ServiceConfig, ServiceType};
use crate::text::{chars_of, lines_of, opt_view, same_chars, split_lines, trim, trimmed, views};

verus! {

/// Seconds to let a container settle after a plain start or restart.
pub const SIMPLE_WARM_UP_SECS: u64 = 2;

/// Seconds to let containers settle after a compose operation.
pub const COMPOSE_WARM_UP_SECS: u64 = 5;

/// Lines of a container log that are shown in a warning.
pub const SHOWN_ERROR_LINES: usize = 5;

#[derive(Debug, Clone, Copy, PartialEq, Eq, Structural)]
pub enum ContainerStatus {
    Running,
    Stopped,
    NotExists,
}

/// Why the runtime adapter could not do what was asked.
#[derive(Debug, Clone, PartialEq, Eq)]
pub enum RuntimeError {
    /// The container does not exist and there is no compose project to create it.
    ContainerMissing,
    /// Neither the named compose file nor a default one is in the directory.
    ComposeFileMissing,
    /// A compose step that must succeed failed.
    CommandFailed(ComposeStep),
    /// A custom service type has no restart command.
    NoRestartCommand,
    /// No compose directory is configured and none could be found.
    NoComposeDir,
}

/// The three steps of recreating a compose project.
#[derive(Debug, Clone, Copy, PartialEq, Eq, Structural)]
pub enum ComposeStep {
    Down,
    Build,
    Up,
}

/// A compose project and the service in it.
#[derive(Debug, Clone)]
pub struct DockerComposeConfig {
    pub compose_dir: String,
    pub compose_file: Option<String>,
    pub service_name: String,
}

/// How a service is restarted.
#[derive(Debug, Clone)]
pub enum RestartRoute {
    /// Restarting is disabled.
    Skip,
    /// Run this shell command.
    Command(String),
    /// Restart through this compose project (recreating it when the container is gone).
    Compose(DockerComposeConfig),
    /// Restart or start the container directly.
    Container(String),
}

/// Some line of the listing, trimmed, is exactly `name`.
pub open spec fn listed(listing: Seq<char>, name: Seq<char>) -> bool {
    exists|i: int| 0 <= i < lines_of(listing).len() && trimmed(#[trigger] lines_of(listing)[i]) == name
}

/// The status of the container `name`, given the names of the running
/// containers and of all containers, one per line.
pub open spec fn status_of(name: Seq<char>, running: Seq<char>, all: Seq<char>) -> ContainerStatus {
    if listed(running, name) {
        ContainerStatus::Running
    } else if listed(all, name) {
        ContainerStatus::Stopped
    } else {
        ContainerStatus::NotExists
    }
}

fn is_listed(listing: &str, name: &[char]) -> (r: bool)
    ensures
        r == listed(listing@, name@),
{
    let lines = split_lines(chars_of(listing).as_slice());
    let ghost ls = lines@.map_values(|l: Vec<char>| l@);
    let mut i: usize = 0;
    while i < lines.len()
        invariant
            i <= lines@.len(),
            ls == lines@.map_values(|l: Vec<char>| l@),
            ls == lines_of(listing@),
            forall|j: int| 0 <= j < i ==> trimmed(#[trigger] ls[j]) != name@,
        decreases lines@.len() - i,
    {
        let t = trim(lines[i].as_slice());
        if same_chars(t.as_slice(), name) {
            assert(trimmed(ls[i as int]) == name@);
            return true;
        }
        i += 1;
    }
    false
}

/// A container's status from the two listings (running containers, all
/// containers). Names must match a whole line: `nginx_app_2` is not `nginx_app`.
pub fn container_status_from(name: &str, running: &str, all: &str) -> (r: ContainerStatus)
    ensures
        r == status_of(name@, running@, all@),
{
    let n = chars_of(name);
    if is_listed(running, n.as_slice()) {
        ContainerStatus::Running
    } else if is_listed(all, n.as_slice()) {
        ContainerStatus::Stopped
    } else {
        ContainerStatus::NotExists
    }
}

/// The `docker ps` arguments that list the container `name` by anchored name
/// filter, running ones only or all of them.
pub fn status_query_args(name: &str, include_stopped: bool) -> (r: Vec<String>)
    ensures
        include_stopped ==> views(r@) == seq![
            "ps"@,
            "-a"@,
            "--format"@,
            "{{.Names}}"@,
            "--filter"@,
            "name=^"@ + name@ + "$"@,
        ],
        !include_stopped ==> views(r@) == seq![
            "ps"@,
            "--format"@,
            "{{.Names}}"@,
            "--filter"@,
            "name=^"@ + name@ + "$"@,
        ],
{
    let mut r: Vec<String> = Vec::new();
    r.push(String::from_str("ps"));
    if include_stopped {
        r.push(String::from_str("-a"));
    }
    r.push(String::from_str("--format"));
    r.push(String::from_str("{{.Names}}"));
    r.push(String::from_str("--filter"));
    r.push(String::from_str("name=^").concat(name).concat("$"));
    assert(views(r@) =~= if include_stopped {
        seq!["ps"@, "-a"@, "--format"@, "{{.Names}}"@, "--filter"@, "name=^"@ + name@ + "$"@]
    } else {
        seq!["ps"@, "--format"@, "{{.Names}}"@, "--filter"@, "name=^"@ + name@ + "$"@]
    });
    r
}

/// The `docker` arguments that bring a container back: `restart` when it
/// runs, `start` when it is stopped; a missing container cannot be restarted.
pub fn restart_container(container_name: &str, status: ContainerStatus) -> (r: Result<
    Vec<String>,
    RuntimeError,
>)
    ensures
        status == ContainerStatus::Running ==> r is Ok && views(r->Ok_0@) == seq![
            "restart"@,
            container_name@,
        ],
        status == ContainerStatus::Stopped ==> r is Ok && views(r->Ok_0@) == seq![
            "start"@,
            container_name@,
        ],
        status == ContainerStatus::NotExists ==> r == Err::<Vec<String>, RuntimeError>(
            RuntimeError::ContainerMissing,
        ),
{
    let verb = match status {
        ContainerStatus::Running => String::from_str("restart"),
        ContainerStatus::Stopped => String::from_str("start"),
        ContainerStatus::NotExists => return Err(RuntimeError::ContainerMissing),
    };
    let mut r: Vec<String> = Vec::new();
    r.push(verb);
    r.push(String::from_str(container_name));
    assert(views(r@) =~= seq![r@[0]@, container_name@]);
    Ok(r)
}

/// The compose tool: the `docker compose` subcommand when it answers, else
/// the standalone `docker-compose`; and whether it is the former.
pub fn detect_docker_compose_command(v2_available: bool) -> (r: (String, bool))
    ensures
        v2_available ==> r.0@ == "docker compose"@ && r.1,
        !v2_available ==> r.0@ == "docker-compose"@ && !r.1,
{
    if v2_available {
        (String::from_str("docker compose"), true)
    } else {
        (String::from_str("docker-compose"), false)
    }
}

/// The `-f` argument for a compose project: the configured file when it
/// exists in the directory, else `docker-compose.yml`, else `compose.yml`.
pub fn get_compose_file_arg(
    config: &DockerComposeConfig,
    file_exists: bool,
    default_exists: bool,
    alt_exists: bool,
) -> (r: Result<String, RuntimeError>)
    ensures
        config.compose_file is Some && file_exists ==> r is Ok && r->Ok_0@ == "-f "@
            + config.compose_file->Some_0@,
        !(config.compose_file is Some && file_exists) && default_exists ==> r is Ok && r->Ok_0@
            == "-f docker-compose.yml"@,
        !(config.compose_file is Some && file_exists) && !default_exists && alt_exists ==> r is Ok
            && r->Ok_0@ == "-f compose.yml"@,
        !(config.compose_file is Some && file_exists) && !default_exists && !alt_exists ==> r
            == Err::<String, RuntimeError>(RuntimeError::ComposeFileMissing),
{
    if file_exists {
        match &config.compose_file {
            Some(f) => return Ok(String::from_str("-f ").concat(f.as_str())),
            None => {},
        }
    }
    if default_exists {
        Ok(String::from_str("-f docker-compose.yml"))
    } else if alt_exists {
        Ok(String::from_str("-f compose.yml"))
    } else {
        Err(RuntimeError::ComposeFileMissing)
    }
}

/// `<dir>/<name>` as a path: nothing is added after a trailing `/`, and an
/// empty directory gives the bare name.
pub open spec fn joined(dir: Seq<char>, name: Seq<char>) -> Seq<char> {
    if dir.len() == 0 {
        name
    } else if dir.last() == '/' {
        dir + name
    } else {
        dir + "/"@ + name
    }
}

/// A relative name under a directory.
pub fn join_path(dir: &str, name: &str) -> (r: String)
    ensures
        r@ == joined(dir@, name@),
{
    let n = dir.unicode_len();
    if n == 0 {
        String::from_str(name)
    } else if dir.get_char(n - 1) == '/' {
        String::from_str(dir).concat(name)
    } else {
        String::from_str(dir).concat("/").concat(name)
    }
}

/// The shell line that runs one compose subcommand in the project directory.
pub fn compose_command(dir: &str, tool: &str, file_arg: &str, subcommand: &str) -> (r: String)
    ensures
        r@ == "cd "@ + dir@ + " && "@ + tool@ + " "@ + file_arg@ + " "@ + subcommand@,
{
    String::from_str("cd ").concat(dir).concat(" && ").concat(tool).concat(" ").concat(
        file_arg,
    ).concat(" ").concat(subcommand)
}

/// The compose subcommand that restarts one service.
pub fn restart_subcommand(service_name: &str) -> (r: String)
    ensures
        r@ == "restart "@ + service_name@,
{
    String::from_str("restart ").concat(service_name)
}

/// Recreating a project: a failed `down` is tolerated, a failed `build` or
/// `up` is not.
pub fn recreate_outcome(down_ok: bool, build_ok: bool, up_ok: bool) -> (r: Result<
    (),
    RuntimeError,
>)
    ensures
        !build_ok ==> r == Err::<(), RuntimeError>(RuntimeError::CommandFailed(ComposeStep::Build)),
        build_ok && !up_ok ==> r == Err::<(), RuntimeError>(
            RuntimeError::CommandFailed(ComposeStep::Up),
        ),
        build_ok && up_ok ==> r is Ok,
{
    if !build_ok {
        Err(RuntimeError::CommandFailed(ComposeStep::Build))
    } else if !up_ok {
        Err(RuntimeError::CommandFailed(ComposeStep::Up))
    } else {
        Ok(())
    }
}

/// A container's log: standard output, a line break, standard error.
pub fn combined_logs(stdout: &str, stderr: &str) -> (r: String)
    ensures
        r@ == stdout@ + "\n"@ + stderr@,
{
    String::from_str(stdout).concat("\n").concat(stderr)
}

/// Whether `service_type` is Nginx or Apache.
pub open spec fn is_web(t: ServiceType) -> bool {
    t is Nginx || t is Apache
}

/// The compose directory: the service's, else the global default, else the
/// worktree when it is a directory, else the current directory.
pub open spec fn compose_dir_of(
    service: ServiceConfig,
    global: GlobalSettings,
    local_path_is_dir: bool,
    current_dir: Option<Seq<char>>,
) -> Option<Seq<char>> {
    match opt_view(service.docker_compose_dir) {
        Some(d) => Some(d),
        None => match opt_view(global.default_compose_dir) {
            Some(d) => Some(d),
            None => if local_path_is_dir {
                Some(service.local_path@)
            } else {
                current_dir
            },
        },
    }
}

/// Where a service's compose project lies; `local_path_is_dir` and
/// `current_dir` are what the host says of the worktree and of the process.
pub fn resolve_compose_directory(
    service: &ServiceConfig,
    global: &GlobalSettings,
    local_path_is_dir: bool,
    current_dir: Option<String>,
) -> (r: Result<String, RuntimeError>)
    ensures
        compose_dir_of(*service, *global, local_path_is_dir, opt_view(current_dir)) is Some ==> r is Ok
            && r->Ok_0@ == compose_dir_of(
            *service,
            *global,
            local_path_is_dir,
            opt_view(current_dir),
        )->Some_0,
        compose_dir_of(*service, *global, local_path_is_dir, opt_view(current_dir)) is None ==> r
            == Err::<String, RuntimeError>(RuntimeError::NoComposeDir),
{
    match &service.docker_compose_dir {
        Some(d) => return Ok(d.clone()),
        None => {},
    }
    match &global.default_compose_dir {
        Some(d) => return Ok(d.clone()),
        None => {},
    }
    if local_path_is_dir {
        return Ok(service.local_path.clone());
    }
    match current_dir {
        Some(d) => Ok(d),
        None => Err(RuntimeError::NoComposeDir),
    }
}

/// How a service is restarted: not at all when disabled; by its restart
/// command when it has one (a custom type must); through compose when the
/// service or the defaults use it; else directly.
pub fn restart_route(
    service: &ServiceConfig,
    global: &GlobalSettings,
    local_path_is_dir: bool,
    current_dir: Option<String>,
) -> (r: Result<RestartRoute, RuntimeError>)
    ensures
        overridden(service.disable_restart, global.disable_restart) ==> r is Ok && r->Ok_0 is Skip,
        !overridden(service.disable_restart, global.disable_restart)
            && service.restart_command is Some ==> r is Ok && r->Ok_0 == RestartRoute::Command(
            service.restart_command->Some_0,
        ),
        !overridden(service.disable_restart, global.disable_restart)
            && service.restart_command is None && service.service_type is Custom ==> r == Err::<
            RestartRoute,
            RuntimeError,
        >(RuntimeError::NoRestartCommand),
        !overridden(service.disable_restart, global.disable_restart)
            && service.restart_command is None && !(service.service_type is Custom) && (
        service.use_docker_compose || global.use_docker_compose) ==> match compose_dir_of(
            *service,
            *global,
            local_path_is_dir,
            opt_view(current_dir),
        ) {
            None => r == Err::<RestartRoute, RuntimeError>(RuntimeError::NoComposeDir),
            Some(d) => r is Ok && r->Ok_0 is Compose && r->Ok_0->Compose_0.compose_dir@ == d
                && r->Ok_0->Compose_0.compose_file == overridden(
                match service.docker_compose_file {
                    Some(f) => Some(Some(f)),
                    None => None,
                },
                global.default_compose_file,
            ) && r->Ok_0->Compose_0.service_name == service.container_name,
        },
        !overridden(service.disable_restart, global.disable_restart)
            && service.restart_command is None && !(service.service_type is Custom) && !(
        service.use_docker_compose || global.use_docker_compose) ==> r is Ok && r->Ok_0
            == RestartRoute::Container(service.container_name),
{
    if service.effective_disable_restart(global.disable_restart) {
        return Ok(RestartRoute::Skip);
    }
    match &service.restart_command {
        Some(cmd) => return Ok(RestartRoute::Command(cmd.clone())),
        None => {},
    }
    if matches!(service.service_type, ServiceType::Custom(_)) {
        return Err(RuntimeError::NoRestartCommand);
    }
    if service.use_docker_compose || global.use_docker_compose {
        let compose_dir = resolve_compose_directory(
            service,
            global,
            local_path_is_dir,
            current_dir,
        )?;
        let compose_file = service.get_compose_file(&global.default_compose_file);
        Ok(
            RestartRoute::Compose(
                DockerComposeConfig {
                    compose_dir,
                    compose_file,
                    service_name: service.container_name.clone(),
                },
            ),
        )
    } else {
        Ok(RestartRoute::Container(service.container_name.clone()))
    }
}

/// Compose restarts a project whose container exists, and recreates
/// (down, build, up) one whose container is gone.
pub fn compose_recreates(status: ContainerStatus) -> (r: bool)
    ensures
        r == (status == ContainerStatus::NotExists),
{
    status == ContainerStatus::NotExists
}

} // verus!
