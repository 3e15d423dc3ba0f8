//! Decision logic of a controller that shuts down sidecar containers left
//! running in pods whose main workload has finished.
pub mod actions;
pub mod pod;
pub mod dispatch;
pub mod metrics;
pub mod report;
pub mod reconcile;
