//! The service type policy: how each type of service is validated, fixed,
//! restarted and observed.
use vstd::prelude::*;
use crate::config::{ServiceConfig, ServiceType};
use crate::docker::ContainerStatus;

verus! {

/// The deadline, in seconds, of every command a loop runs.
pub const DEFAULT_COMMAND_TIMEOUT: u64 = 60;

/// How a service's configuration is validated.
#[derive(Debug, Clone, PartialEq, Eq)]
pub enum ValidationPlan {
    /// Run this shell command; success means valid.
    Command(String),
    /// Run `nginx -t` in the container.
    NginxConfigTest,
    /// Nothing to validate.
    Skip,
}

/// A service type whose policy lacks what it needs.
#[derive(Debug, Clone, Copy, PartialEq, Eq, Structural)]
pub enum PolicyError {
    /// A custom service type has no validation command.
    MissingValidationCommand,
}

/// What waiting for a container to come up does after one look.
#[derive(Debug, Clone, Copy, PartialEq, Eq, Structural)]
pub enum ReadyDecision {
    Ready,
    /// Look again after the delay.
    Retry,
    GiveUp,
}

/// How a service is validated: its validation command when set; else
/// `nginx -t` for Nginx, nothing for Apache and generic services; a custom
/// type must have a command.
pub fn run_validation(service: &ServiceConfig) -> (r: Result<ValidationPlan, PolicyError>)
    ensures
        service.validation_command is Some ==> r == Ok::<ValidationPlan, PolicyError>(
            ValidationPlan::Command(service.validation_command->Some_0),
        ),
        service.validation_command is None && service.service_type is Nginx ==> r == Ok::<
            ValidationPlan,
            PolicyError,
        >(ValidationPlan::NginxConfigTest),
        service.validation_command is None && (service.service_type is Apache
            || service.service_type is Generic) ==> r == Ok::<ValidationPlan, PolicyError>(
            ValidationPlan::Skip,
        ),
        service.validation_command is None && service.service_type is Custom ==> r == Err::<
            ValidationPlan,
            PolicyError,
        >(PolicyError::MissingValidationCommand),
{
    match &service.validation_command {
        Some(cmd) => Ok(ValidationPlan::Command(cmd.clone())),
        None => match &service.service_type {
            ServiceType::Nginx => Ok(ValidationPlan::NginxConfigTest),
            ServiceType::Apache => Ok(ValidationPlan::Skip),
            ServiceType::Generic => Ok(ValidationPlan::Skip),
            ServiceType::Custom(_) => Err(PolicyError::MissingValidationCommand),
        },
    }
}

/// Nginx and Apache logs are scanned for errors; other types are not.
pub fn scans_logs(service_type: &ServiceType) -> (r: bool)
    ensures
        r == (service_type is Nginx || service_type is Apache),
{
    matches!(service_type, ServiceType::Nginx) || matches!(service_type, ServiceType::Apache)
}

/// Only Nginx services have configuration fixes and in-container permission fixes.
pub fn fixes_issues(service_type: &ServiceType) -> (r: bool)
    ensures
        r == service_type is Nginx,
{
    matches!(service_type, ServiceType::Nginx)
}

/// After the look numbered `attempt` (from 1) of `max_attempts`: done when the
/// container runs, else look again while attempts remain.
pub fn wait_for_service_ready(attempt: u32, max_attempts: u32, status: ContainerStatus) -> (r:
    ReadyDecision)
    ensures
        status == ContainerStatus::Running ==> r == ReadyDecision::Ready,
        status != ContainerStatus::Running && attempt < max_attempts ==> r
            == ReadyDecision::Retry,
        status != ContainerStatus::Running && attempt >= max_attempts ==> r
            == ReadyDecision::GiveUp,
{
    if status == ContainerStatus::Running {
        ReadyDecision::Ready
    } else if attempt < max_attempts {
        ReadyDecision::Retry
    } else {
        ReadyDecision::GiveUp
    }
}

} // verus!
