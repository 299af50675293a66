//! Keeps containerized services in sync with configuration held in Git
//! repositories: the decisions of the per-service reconciliation loop and of
//! the Git and container adapters, the configuration model they read, and the
//! text processing behind configuration fixes and log scans.

pub mod config;
pub mod docker;
pub mod git;
pub mod logger;
pub mod nginx;
pub mod permissions;
pub mod reconcile;
pub mod service;
pub mod supervisor;
pub mod sync;
pub mod text;
pub mod utils;

pub use config::{Config, GlobalSettings, ServiceConfig, ServiceType};
pub use docker::ContainerStatus;
pub use git::GitRepo;
pub use reconcile::{Action, Event, ReconcileState};
pub use utils::parse_duration;
