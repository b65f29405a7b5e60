//! A gateway that lets a remote caller run one of a fixed set of named shell
//! commands, guarded by a shared password and a single-window rate limiter.
//!
//! Time is carried as milliseconds of a monotonic clock; the caller reads the
//! clock and spawns the planned process.

pub mod credential;
pub mod gateway;
pub mod rate_limit;
pub mod registry;
pub mod shell;

pub use credential::PasswordHashString;
pub use rate_limit::{RateLimiting, COOLDOWN_MS};
pub use registry::{Command, Commands, ConfigurationError};
pub use shell::{plan_shell, ShellInvocation};
pub use gateway::{command_list, invoke_command, finish_admitted, InvocationError};
