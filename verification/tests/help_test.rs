use cloudapps::cli::alerts::AlertsCommand;
use cloudapps::cli::Commands;
use cloudapps::help_for_ai::{get_help, HelpTopic};

#[test]
fn help_topic_follows_the_command() {
    let c = Commands::Alerts { command: Some(AlertsCommand::MarkRead { ids: vec![] }) };
    assert_eq!(get_help(&c), HelpTopic::Alerts);
    assert_eq!(c.name(), "alerts");
}
