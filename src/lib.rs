//! Orchestration core for deploying workloads onto Kubernetes clusters.
//!
//! Every lifecycle transition (create, pause, delete) is a verified state
//! machine: the caller performs the cluster work that each command asks for
//! and hands the outcome back, and the library decides what comes next and
//! what the deployment reporter is told.
pub mod chart;
pub mod cleanup;
pub mod executor;
pub mod lifecycle;
pub mod model;
pub mod pause;

pub use chart::{ChartDeployment, ToolReport};
pub use cleanup::{cleanup_result, pending_services, ListingError, ServiceState};
pub use executor::{LongDeployment, ReportEvent};
pub use lifecycle::{Command, Phase, StepKind, Transition};
pub use model::{Action, EngineError, EnvironmentStep, ErrorKind, EventDetails, Workload};
pub use pause::{PauseDecision, PauseObservation, PauseServiceAction, PAUSE_WAIT_BUDGET_MS};
