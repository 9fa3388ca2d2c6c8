//! A wrapper for `git submodule` commands.
//!
//! The library reconciles the state of git submodules across four
//! loosely-synchronized sources of truth: the `.gitmodules` manifest, the
//! repository's local config, the per-submodule module store under
//! `.git/modules`, and the git index. It merges the four partial views into
//! one record per submodule, classifies the combination, and computes the
//! corrective actions that bring the record back to a consistent state.

pub mod git;
pub mod status;
pub mod strutil;
pub mod submodule;
pub mod version;

pub use git::SUPPORTED_GIT_VERSIONS;

use vstd::prelude::*;

verus! {

/// Printing options for all commands
#[derive(Debug, Clone, PartialEq, Eq)]
pub struct PrintOptions {
    /// Enable verbose output
    ///
    /// Display more information about what is happening, for example which
    /// git commands are executed and their output
    pub verbose: bool,
    /// Disable output to stdout and stderr
    pub quiet: bool,
    /// Color options
    ///
    /// `Some(true)` and `Some(false)` to always/never use color in output.
    /// `None` to read the color setting from git config.
    pub color: Option<bool>,
}

impl Default for PrintOptions {
    /// The default print options: normal verbosity, color read from git.
    fn default() -> (r: Self)
        ensures
            r == (PrintOptions { verbose: false, quiet: false, color: None }),
    {
        PrintOptions { verbose: false, quiet: false, color: None }
    }
}

/// The `status` command
#[derive(Debug, Clone, PartialEq, Eq)]
pub struct StatusCommand {
    /// Show the current git version and if it is supported
    pub git: bool,
    /// Include the full trace: the submodules that exist only in the index
    /// or in the module store
    pub all: bool,
    /// Show more information in a longer format
    pub long: bool,
    /// Fix the submodules to be in a consistent state
    pub fix: bool,
    /// Prefers deleting the submodule instead of installing it when fixing
    pub delete: bool,
    /// Print options
    pub options: PrintOptions,
}

impl Default for StatusCommand {
    /// The default status command: plain status, nothing fixed.
    fn default() -> (r: Self)
        ensures
            r == (StatusCommand {
                git: false,
                all: false,
                long: false,
                fix: false,
                delete: false,
                options: PrintOptions { verbose: false, quiet: false, color: None },
            }),
    {
        StatusCommand {
            git: false,
            all: false,
            long: false,
            fix: false,
            delete: false,
            options: PrintOptions { verbose: false, quiet: false, color: None },
        }
    }
}

/// The `install` command
#[derive(Debug, Clone, PartialEq, Eq)]
pub struct InstallCommand {
    /// URL of the git repository to add
    pub url: Option<String>,
    /// Local path to clone the git submodule to, relative from the top
    /// level of the repository
    pub path: Option<String>,
    /// Branch to checkout and track
    pub branch: Option<String>,
    /// Name of the submodule; the path if not given
    pub name: Option<String>,
    /// Depth to clone the submodule
    pub depth: Option<usize>,
    /// Whether to force the submodule to be added
    pub force: bool,
    /// Don't install submodules recursively, only top-level
    pub no_recursive: bool,
    /// Print options
    pub options: PrintOptions,
}

/// The `update` command
#[derive(Debug, Clone, PartialEq, Eq)]
pub struct UpdateCommand {
    /// Name of the submodule to update; all submodules if not given
    pub name: Option<String>,
    /// Change the branch of the submodule
    pub branch: Option<String>,
    /// Unset the update branch of the submodule
    pub unset_branch: bool,
    /// Change the url of the submodule
    pub url: Option<String>,
    /// Whether to force the submodule to be updated
    pub force: bool,
    /// Bypass warnings in the submodule state
    pub bypass: bool,
    /// Print options
    pub options: PrintOptions,
}

/// The `remove` command
#[derive(Debug, Clone, PartialEq, Eq)]
pub struct RemoveCommand {
    /// The name of the submodule to remove
    pub name: String,
    /// Force remove the submodule, deleting local changes
    pub force: bool,
    /// Pass the `--force` flag to the de-initialization
    pub force_deinit: bool,
    /// Print options
    pub options: PrintOptions,
}

/// Subcommands
#[derive(Debug, Clone, PartialEq, Eq)]
pub enum Command {
    /// Print the status of the submodules in the current git repository.
    Status(StatusCommand),
    /// Add or install dependencies
    Install(InstallCommand),
    /// Updates all dependencies or the specified dependency.
    Update(UpdateCommand),
    /// Remove a dependency
    Remove(RemoveCommand),
}

/// The main entry point for the library
#[derive(Debug, Clone, PartialEq, Eq)]
pub struct Magoo {
    /// Command to run
    pub subcmd: Command,
    /// Set the working directory of commands
    pub dir: String,
}

} // verus!
