//! The subcommands of the command line, as plain values; the parser that
//! fills them lives with the program.
use vstd::prelude::*;

verus! {

/// Service management subcommands.
#[derive(Debug, Clone, PartialEq, Eq)]
pub enum ServiceCommands {
    /// Install daemon service unit for auto-start and restart
    Install,
    /// Start daemon service
    Start,
    /// Stop daemon service
    Stop,
    /// Check daemon service status
    Status,
    /// Uninstall daemon service unit
    Uninstall,
}

/// Channel management subcommands.
#[derive(Debug, Clone, PartialEq, Eq)]
pub enum ChannelCommands {
    /// List all configured channels
    List,
    /// Start all configured channels
    Start,
    /// Run health checks for configured channels
    Doctor,
    /// Add a new channel configuration
    Add { channel_type: String, config: String },
    /// Remove a channel configuration
    Remove { name: String },
}

/// Skills management subcommands.
#[derive(Debug, Clone, PartialEq, Eq)]
pub enum SkillCommands {
    /// List all installed skills
    List,
    /// Install a new skill from a URL or local path
    Install { source: String },
    /// Remove an installed skill
    Remove { name: String },
}

/// Migration subcommands.
#[derive(Debug, Clone, PartialEq, Eq)]
pub enum MigrateCommands {
    /// Import memory from an OpenClaw workspace
    Openclaw { source: Option<String>, dry_run: bool },
}

/// Cron subcommands.
#[derive(Debug, Clone, PartialEq, Eq)]
pub enum CronCommands {
    /// List all scheduled tasks
    List,
    /// Add a new scheduled task
    Add { expression: String, command: String },
    /// Remove a scheduled task
    Remove { id: String },
}

/// Integration subcommands.
#[derive(Debug, Clone, PartialEq, Eq)]
pub enum IntegrationCommands {
    /// Show details about a specific integration
    Info { name: String },
}

} // verus!
