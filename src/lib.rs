//! Locates or installs the `naive-ui-language-server` package and builds the
//! command line that launches it.
//!
//! The host editor performs every effect (file checks, status reports,
//! registry queries, installs). The library decides: [`resolver::ServerResolver`]
//! is a state machine that turns each answer from the host into the next
//! request, and [`command::launch_command`] assembles the launch command.

pub mod resolver;
pub mod run;
pub mod command;
