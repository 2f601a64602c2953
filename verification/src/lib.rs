//! A scaffold for applications that run scheduled work on a task runtime and
//! go through setup, run and shutdown, stopping cooperatively on a shared
//! stop signal.

pub mod clockwork;
pub mod clockwork_app;
pub mod clockwork_config;
pub mod clockwork_logger;
pub mod clockwork_schedule;

pub use clockwork::BuildError;
pub use clockwork::Clockwork;
pub use clockwork::ClockworkHandle;
pub use clockwork_config::ClockworkConfig;
pub use clockwork_config::RuntimeConfig;
