//! The command-line surface: commands, subcommands and their arguments.

pub mod activities;
pub mod agent;
pub mod alerts;
pub mod credentials;
pub mod data_enrichment;
pub mod entities;
pub mod files;
pub mod policies;

use vstd::prelude::*;
use crate::output::OutputFormat;

verus! {

#[derive(Debug, Clone, Copy, PartialEq, Eq, Structural)]
pub enum CompletionShell {
    Bash,
    Zsh,
    Fish,
    PowerShell,
    Elvish,
}

/// The global options and the command.
pub struct Cli {
    pub command: Option<Commands>,
    /// API base URL.
    pub api_url: Option<String>,
    /// Output format.
    pub output: OutputFormat,
    /// Output the raw API response without extracting data.
    pub raw: bool,
    /// Enable verbose output.
    pub verbose: bool,
    /// Show AI-friendly help for the specified resource.
    pub help_for_ai: bool,
    /// Agent socket path.
    pub socket: Option<String>,
    /// Agent session token.
    pub token: Option<String>,
    /// Skip agent auto-detection and use direct API mode.
    pub no_agent: bool,
}

pub enum Commands {
    Activities { command: Option<activities::ActivitiesCommand> },
    Alerts { command: Option<alerts::AlertsCommand> },
    Entities { command: Option<entities::EntitiesCommand> },
    Files { command: Option<files::FilesCommand> },
    DataEnrichment { command: Option<data_enrichment::DataEnrichmentCommand> },
    Policies { command: Option<policies::PoliciesCommand> },
    /// Diagnose configuration, credentials, environment and connectivity.
    Doctor { no_connectivity: bool },
    Credentials { command: credentials::CredentialsCommand },
    Agent { command: agent::AgentCommand },
    Completion { shell: CompletionShell },
}

impl Commands {
    /// The name of a command as typed on the command line.
    pub open spec fn name_spec(&self) -> Seq<char> {
        match self {
            Commands::Activities { .. } => "activities"@,
            Commands::Alerts { .. } => "alerts"@,
            Commands::Entities { .. } => "entities"@,
            Commands::Files { .. } => "files"@,
            Commands::DataEnrichment { .. } => "data-enrichment"@,
            Commands::Policies { .. } => "policies"@,
            Commands::Doctor { .. } => "doctor"@,
            Commands::Credentials { .. } => "credentials"@,
            Commands::Agent { .. } => "agent"@,
            Commands::Completion { .. } => "completion"@,
        }
    }

    pub fn name(&self) -> (r: &'static str)
        ensures
            r@ == self.name_spec(),
    {
        match self {
            Commands::Activities { .. } => "activities",
            Commands::Alerts { .. } => "alerts",
            Commands::Entities { .. } => "entities",
            Commands::Files { .. } => "files",
            Commands::DataEnrichment { .. } => "data-enrichment",
            Commands::Policies { .. } => "policies",
            Commands::Doctor { .. } => "doctor",
            Commands::Credentials { .. } => "credentials",
            Commands::Agent { .. } => "agent",
            Commands::Completion { .. } => "completion",
        }
    }
}

} // verus!
