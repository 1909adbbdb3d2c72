//! Native shell logic for a desktop application that launches a bundled
//! sidecar server: port bookkeeping, launch-argument construction, config
//! parsing, log-line formatting and the shutdown notification.

pub mod bridge;
pub mod config;
pub mod decimal;
pub mod launch;
pub mod relay;
pub mod shutdown;
pub mod text;
