use unicom_usage::cli::{Cli, Commands, ConfigCommand, Incoming, TaskCommand};

fn words(list: &[&str]) -> Vec<String> {
    list.iter().map(|w| w.to_string()).collect()
}

#[test]
fn command_name_is_the_chat_prefix() {
    assert_eq!(Cli::name(), "/china_unicom");
}

#[test]
fn commands_are_plain_values() {
    let cli = Cli { command: Commands::Task { task_command: TaskCommand::Stop } };
    assert_eq!(cli.command, Commands::Task { task_command: TaskCommand::Stop });
    assert_ne!(cli.command, Commands::Task { task_command: TaskCommand::Start });
    assert_ne!(
        Commands::Config { config_command: ConfigCommand::Show },
        Commands::Config { config_command: ConfigCommand::SetValue }
    );
    assert_ne!(Commands::Register, Commands::Deregister);
    assert_ne!(Commands::Query, Commands::Register);
    assert_ne!(TaskCommand::Status, TaskCommand::Stop);
}

#[test]
fn messages_that_begin_with_the_name_are_commands() {
    assert!(Cli::is_command("/china_unicom"));
    assert!(Cli::is_command("/china_unicom query"));
    assert!(Cli::is_command("/china_unicomx"));
    assert!(!Cli::is_command(" /china_unicom"));
    assert!(!Cli::is_command("/china_unico"));
    assert!(!Cli::is_command("china_unicom"));
    assert!(!Cli::is_command(""));
}

#[test]
fn other_messages_are_passed_over() {
    assert_eq!(Cli::handle("hello", false), Incoming::Ignore);
    assert_eq!(Cli::handle("hello", true), Incoming::Ignore);
    assert_eq!(Cli::handle("hello 'unclosed", false), Incoming::Ignore);
}

#[test]
fn group_chats_are_turned_away() {
    assert_eq!(Cli::handle("/china_unicom query", true), Incoming::PrivateChatOnly);
    assert_eq!(Cli::handle("/china_unicom 'unclosed", true), Incoming::PrivateChatOnly);
}

#[test]
fn command_is_cut_into_words() {
    assert_eq!(
        Cli::handle("/china_unicom task start", false),
        Incoming::Words(words(&["/china_unicom", "task", "start"]))
    );
    assert_eq!(
        Cli::handle("/china_unicom  -c   'set it' \"now\"", false),
        Incoming::Words(words(&["/china_unicom", "-c", "set it", "now"]))
    );
    assert_eq!(Cli::handle("/china_unicom", false), Incoming::Words(words(&["/china_unicom"])));
}

#[test]
fn open_quote_is_malformed() {
    assert_eq!(Cli::handle("/china_unicom 'task", false), Incoming::Malformed);
    assert_eq!(Cli::handle("/china_unicom task\\", false), Incoming::Malformed);
}

#[test]
fn route_takes_the_words_it_is_given() {
    assert_eq!(
        Cli::route("/china_unicom q", false, Some(words(&["a", "b"]))),
        Incoming::Words(words(&["a", "b"]))
    );
    assert_eq!(Cli::route("/china_unicom q", false, None), Incoming::Malformed);
    assert_eq!(Cli::route("/china_unicom q", true, None), Incoming::PrivateChatOnly);
    assert_eq!(Cli::route("q", false, Some(words(&["q"]))), Incoming::Ignore);
}
