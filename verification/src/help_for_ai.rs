//! The AI-oriented help shown for `--help-for-ai`.

use vstd::prelude::*;
use crate::cli::Commands;

verus! {

/// The help document for a command.
#[derive(Debug, Clone, Copy, PartialEq, Eq, Structural)]
pub enum HelpTopic {
    Activities,
    Alerts,
    Entities,
    Files,
    DataEnrichment,
    Policies,
    Doctor,
    Credentials,
    Agent,
    Completion,
}

/// The help topic of a command.
pub open spec fn topic_of(command: &Commands) -> HelpTopic {
    match command {
        Commands::Activities { .. } => HelpTopic::Activities,
        Commands::Alerts { .. } => HelpTopic::Alerts,
        Commands::Entities { .. } => HelpTopic::Entities,
        Commands::Files { .. } => HelpTopic::Files,
        Commands::DataEnrichment { .. } => HelpTopic::DataEnrichment,
        Commands::Policies { .. } => HelpTopic::Policies,
        Commands::Doctor { .. } => HelpTopic::Doctor,
        Commands::Credentials { .. } => HelpTopic::Credentials,
        Commands::Agent { .. } => HelpTopic::Agent,
        Commands::Completion { .. } => HelpTopic::Completion,
    }
}

/// The help document that `--help-for-ai` shows for a command.
pub fn get_help(command: &Commands) -> (r: HelpTopic)
    ensures
        r == topic_of(command),
{
    match command {
        Commands::Activities { .. } => HelpTopic::Activities,
        Commands::Alerts { .. } => HelpTopic::Alerts,
        Commands::Entities { .. } => HelpTopic::Entities,
        Commands::Files { .. } => HelpTopic::Files,
        Commands::DataEnrichment { .. } => HelpTopic::DataEnrichment,
        Commands::Policies { .. } => HelpTopic::Policies,
        Commands::Doctor { .. } => HelpTopic::Doctor,
        Commands::Credentials { .. } => HelpTopic::Credentials,
        Commands::Agent { .. } => HelpTopic::Agent,
        Commands::Completion { .. } => HelpTopic::Completion,
    }
}

/// The specification document that holds a topic's help, or `None` for the
/// topics whose help is written out here.
pub open spec fn document_of(topic: HelpTopic) -> Option<Seq<char>> {
    match topic {
        HelpTopic::Activities => Some("04-resources-activities.md"@),
        HelpTopic::Alerts => Some("05-resources-alerts.md"@),
        HelpTopic::Entities => Some("06-resources-entities.md"@),
        HelpTopic::Files => Some("07-resources-files.md"@),
        HelpTopic::DataEnrichment => Some("08-resources-data-enrichment.md"@),
        HelpTopic::Agent => Some("16-agent-mode.md"@),
        HelpTopic::Policies => Some("17-resources-policies.md"@),
        HelpTopic::Credentials => Some("19-credentials-storage.md"@),
        HelpTopic::Doctor => None,
        HelpTopic::Completion => None,
    }
}

impl HelpTopic {
    /// The file name, under `docs/specifications/`, of a topic's help document.
    pub fn document(&self) -> (r: Option<&'static str>)
        ensures
            match r {
                Some(d) => document_of(*self) == Some(d@),
                None => document_of(*self) is None,
            },
    {
        match self {
            HelpTopic::Activities => Some("04-resources-activities.md"),
            HelpTopic::Alerts => Some("05-resources-alerts.md"),
            HelpTopic::Entities => Some("06-resources-entities.md"),
            HelpTopic::Files => Some("07-resources-files.md"),
            HelpTopic::DataEnrichment => Some("08-resources-data-enrichment.md"),
            HelpTopic::Agent => Some("16-agent-mode.md"),
            HelpTopic::Policies => Some("17-resources-policies.md"),
            HelpTopic::Credentials => Some("19-credentials-storage.md"),
            HelpTopic::Doctor => None,
            HelpTopic::Completion => None,
        }
    }

    /// The help text of the topics whose help is written out here.
    pub fn inline_text(&self) -> (r: Option<&'static str>)
        ensures
            r is Some <==> document_of(*self) is None,
    {
        match self {
            HelpTopic::Completion => Some(
                "# completion\n\nGenerate shell completion script.\n\nUsage:\n  cloudapps-cli completion <shell>\n\nSupported shells: bash, zsh, fish, powershell, elvish\n\nExamples:\n  cloudapps-cli completion zsh > \"${fpath[1]}/_cloudapps-cli\"\n  cloudapps-cli completion bash > /etc/bash_completion.d/cloudapps-cli\n",
            ),
            HelpTopic::Doctor => Some(
                "# doctor\n\nDiagnose configuration, credentials, environment, and connectivity.\n\nUsage:\n  cloudapps-cli doctor [--no-connectivity]\n\nReports:\n  CONFIG        credentials.toml search path and presence\n  CREDENTIALS   resolved source of api-url / api-token (value never printed)\n  AGENT         credential isolation agent session state (Unix)\n  ENVIRONMENT   which CLOUDAPPS_* / XDG_* variables are set (presence only)\n  CONNECTIVITY  HEAD request to the resolved api-url (skipped with --no-connectivity)\n\nThe API token value is never printed — only its presence and resolution source.\n",
            ),
            _ => None,
        }
    }
}

} // verus!
