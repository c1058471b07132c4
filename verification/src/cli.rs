//! The command surface: what a user can ask for in a private chat.

use vstd::prelude::*;
use crate::utils::text::starts_with;

verus! {

/// Control of a user's repeating task.
#[derive(Clone, Copy, Debug, PartialEq, Eq, Structural)]
pub enum TaskCommand {
    /// Start the task
    Start,
    /// Stop the task
    Stop,
    /// Check the status of the task
    Status,
}

/// Inspection or change of a user's configuration.
#[derive(Clone, Copy, Debug, PartialEq, Eq, Structural)]
pub enum ConfigCommand {
    /// Show configuration
    Show,
    /// Set configuration, use 'None' to set null
    SetValue,
}

/// The top-level commands.
#[derive(Clone, Copy, Debug, PartialEq, Eq, Structural)]
pub enum Commands {
    /// Register to the service
    Register,
    /// Deregister from the service
    Deregister,
    /// Show or set configuration
    Config { config_command: ConfigCommand },
    /// Query data immediately
    Query,
    /// Check or control task
    Task { task_command: TaskCommand },
}

/// A parsed command line.
#[derive(Clone, Copy, Debug, PartialEq, Eq, Structural)]
pub struct Cli {
    pub command: Commands,
}

impl Cli {
    /// The word every command line starts with.
    pub fn name() -> (name: &'static str)
        ensures
            name@ == "/china_unicom"@,
    {
        "/china_unicom"
    }
}

/// The words that `shlex::split` makes of a line, or nothing where the
/// line is not well formed.
pub uninterp spec fn shell_words(line: Seq<char>) -> Option<Seq<Seq<char>>>;

/// `shlex::split`: cuts a line into words as a shell does. Trusted: the
/// result depends on the line alone.
#[verifier::external_body]
fn split(line: &str) -> (words: Option<Vec<String>>)
    ensures
        words is Some == shell_words(line@) is Some,
        words matches Some(found) ==> shell_words(line@) == Some(found.deep_view()),
{
    shlex::split(line)
}

/// What to do with a message that came in.
#[derive(Debug, PartialEq, Eq)]
pub enum Incoming {
    /// The message is no command of this service.
    Ignore,
    /// The message is a command, but came from a group chat.
    PrivateChatOnly,
    /// The message is a command whose words cannot be told apart.
    Malformed,
    /// The message is a command made of these words.
    Words(Vec<String>),
}

impl Cli {
    /// Whether a message is meant for this service: it begins with the
    /// service's name.
    pub fn is_command(raw_text: &str) -> (is: bool)
        ensures
            is == "/china_unicom"@.is_prefix_of(raw_text@),
    {
        starts_with(raw_text, Cli::name())
    }

    /// Tells what to do with a message, given the words that the line was
    /// cut into: a message that does not begin with the service's name is
    /// passed over, one from a group chat is turned away, and of the rest
    /// the words go on to be read as a command, where there are any.
    pub fn route(raw_text: &str, is_group: bool, words: Option<Vec<String>>) -> (incoming: Incoming)
        ensures
            incoming == if !"/china_unicom"@.is_prefix_of(raw_text@) {
                Incoming::Ignore
            } else if is_group {
                Incoming::PrivateChatOnly
            } else {
                match words {
                    Some(found) => Incoming::Words(found),
                    None => Incoming::Malformed,
                }
            },
    {
        if !Cli::is_command(raw_text) {
            Incoming::Ignore
        } else if is_group {
            Incoming::PrivateChatOnly
        } else {
            match words {
                Some(found) => Incoming::Words(found),
                None => Incoming::Malformed,
            }
        }
    }

    /// Tells what to do with a message: as `route` does, with the words
    /// that `shlex` cuts the message into.
    pub fn handle(raw_text: &str, is_group: bool) -> (incoming: Incoming)
        ensures
            !"/china_unicom"@.is_prefix_of(raw_text@) ==> incoming == Incoming::Ignore,
            "/china_unicom"@.is_prefix_of(raw_text@) && is_group ==> incoming
                == Incoming::PrivateChatOnly,
            "/china_unicom"@.is_prefix_of(raw_text@) && !is_group ==> match shell_words(raw_text@) {
                Some(words) => incoming matches Incoming::Words(found) && found.deep_view()
                    == words,
                None => incoming == Incoming::Malformed,
            },
    {
        if !Cli::is_command(raw_text) {
            Incoming::Ignore
        } else if is_group {
            Incoming::PrivateChatOnly
        } else {
            Cli::route(raw_text, is_group, split(raw_text))
        }
    }
}

} // verus!
