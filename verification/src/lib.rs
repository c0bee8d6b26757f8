//! Verified core of a command-line tool that manages local container-based
//! development environments: project-root discovery, layered configuration,
//! the container-runtime readiness gate and the planning of compose-tool
//! invocations.

use vstd::prelude::*;

pub mod dispatcher;
pub mod utils;

verus! {

/// The name of the developer's own, untracked configuration file.
pub const CONFIG_FILE_NAME_LOCAL: &'static str = ".dev-cli.yml";

/// The name of the configuration file that a project distributes.
pub const CONFIG_FILE_NAME_PROJECT: &'static str = ".dev-cli.dist.yml";

} // verus!
