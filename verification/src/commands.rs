//! The chat commands: who may use them, what they reply, and how slash
//! commands are answered.

use vstd::prelude::*;
use crate::text::{join, seq_join, str_equal, string_views};

verus! {

/// The first user allowed to use the list commands.
pub const DANIEL_PROXD: u64 = 452644418995093526;

/// The second user allowed to use the list commands.
pub const DEV_SLASH_RICHIE: u64 = 894381937651765279;

/// The reply to a user who may not use a command.
pub const NOT_OWNER_REPLY: &'static str = "Grosero tu no puedes.";

/// The reply to `!ping`.
pub const PING_REPLY: &'static str = "Pong!";

/// The answer to a slash command that the bot does not know.
pub const UNKNOWN_COMMAND: &'static str = "Unknown command";

/// Whether a user may use `!add` and `!list`.
pub open spec fn spec_is_owner(author_id: u64) -> bool {
    author_id == DANIEL_PROXD || author_id == DEV_SLASH_RICHIE
}

/// Whether a user may use `!add` and `!list`.
pub fn check_owner(author_id: u64) -> (r: bool)
    ensures
        r == spec_is_owner(author_id),
{
    author_id == DANIEL_PROXD || author_id == DEV_SLASH_RICHIE
}

/// The query of `!add`: its arguments joined with single spaces.
pub fn add_query(args: &Vec<String>) -> (r: String)
    ensures
        r@ == seq_join(string_views(args@), " "@),
{
    join(args, " ")
}

/// A slash command the bot answers.
#[derive(Debug, Clone, Copy, PartialEq, Eq, Structural)]
pub enum SlashCommand {
    List,
    Unknown,
}

/// Which slash command a name calls.
pub fn classify_command(name: &str) -> (r: SlashCommand)
    ensures
        r == (if name@ == "list"@ { SlashCommand::List } else { SlashCommand::Unknown }),
{
    if str_equal(name, "list") {
        SlashCommand::List
    } else {
        SlashCommand::Unknown
    }
}

/// The answer to a slash command that the bot does not know.
pub fn unknown_command_reply() -> (r: Result<String, String>)
    ensures
        r matches Ok(s) && s@ == UNKNOWN_COMMAND@,
{
    Ok(UNKNOWN_COMMAND.to_owned())
}

/// The message sent for the answer of a slash command: the answer, or the
/// error after `Error: `.
pub fn interaction_reply(content: Result<String, String>) -> (r: String)
    ensures
        r@ == (match content {
            Ok(m) => m@,
            Err(e) => "Error: "@ + e@,
        }),
{
    match content {
        Ok(msg) => msg,
        Err(err) => {
            let mut s = "Error: ".to_owned();
            s.append(err.as_str());
            s
        },
    }
}

/// An option of a slash command; its values are integers.
pub struct CommandOption {
    pub name: String,
    pub description: String,
    pub required: bool,
}

/// A slash command as it is registered.
pub struct CommandDefinition {
    pub name: String,
    pub description: String,
    pub options: Vec<CommandOption>,
}

/// The `/list` command: an optional integer `page`.
pub fn list_command_definition() -> (r: CommandDefinition)
    ensures
        r.name@ == "list"@,
        r.description@ == "List movies in the database"@,
        r.options@.len() == 1,
        r.options@[0].name@ == "page"@,
        r.options@[0].description@ == "Page number"@,
        !r.options@[0].required,
{
    let mut options: Vec<CommandOption> = Vec::new();
    options.push(CommandOption {
        name: "page".to_owned(),
        description: "Page number".to_owned(),
        required: false,
    });
    CommandDefinition {
        name: "list".to_owned(),
        description: "List movies in the database".to_owned(),
        options,
    }
}

} // verus!
