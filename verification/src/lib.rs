//! Keeps a pinned compiler toolchain installed and active by reading the
//! toolchain manager's status report and deciding which of its commands to
//! run next. The library decides; the caller runs the commands.

pub mod report;
pub mod sync;
pub mod text;
pub mod trace;

pub use crate::report::{
    extract_from_rustup, get_default_host, get_default_toolchain, get_override_toolchain,
};
pub use crate::sync::{
    command_args, failure_notice, status_args, upgrade_toolchain, upgrade_toolchain_if_outdated,
    Outcome, Progress, Stage,
};
