//! The help and source commands.

use vstd::prelude::*;
use vstd::string::StringExecFns;
use crate::text::str_eq;

verus! {

/// The command that help is asked about. When the help command was invoked
/// under another name, that name heads the query.
pub open spec fn help_query_spec(invoked: Seq<char>, command: Option<Seq<char>>) -> Option<Seq<char>> {
    if invoked == "help"@ {
        command
    } else {
        match command {
            Some(c) => Some(invoked + " "@ + c),
            None => Some(invoked),
        }
    }
}

/// The command that help is asked about.
pub fn help_query(invoked: &str, command: Option<String>) -> (r: Option<String>)
    ensures
        match r {
            Some(q) => help_query_spec(invoked@, match command {
                Some(c) => Some(c@),
                None => None,
            }) == Some(q@),
            None => help_query_spec(invoked@, match command {
                Some(c) => Some(c@),
                None => None,
            }) is None,
        },
{
    if str_eq(invoked, "help") {
        return command;
    }
    match command {
        Some(c) => {
            let mut q = String::from_str(invoked);
            q.append(" ");
            q.append(c.as_str());
            Some(q)
        },
        None => Some(String::from_str(invoked)),
    }
}

/// Invoked as "help", the query is what was asked.
pub proof fn lemma_help_query_plain(command: Option<Seq<char>>)
    ensures
        help_query_spec("help"@, command) == command,
{
}

/// The text below the list of commands.
pub fn help_footer() -> (r: String)
    ensures
        r@ == "Type `!help command` for more info on a command.\nYou can edit your `!help` message to the bot and the bot will edit its response.\n\nSource on GitHub: https://github.com/varunkamath/winnbot"@,
{
    String::from_str("Type `!help command` for more info on a command.\nYou can edit your `!help` message to the bot and the bot will edit its response.\n\nSource on GitHub: https://github.com/varunkamath/winnbot")
}

/// The title of the source answer.
pub fn source_title() -> (r: String)
    ensures
        r@ == "Source"@,
{
    String::from_str("Source")
}

/// The text of the source answer.
pub fn source_text() -> (r: String)
    ensures
        r@ == "\n            <:github:1198311705596399712> [varunkamath/winnbot](https://github.com/varunkamath/winnbot)"@,
{
    String::from_str("\n            <:github:1198311705596399712> [varunkamath/winnbot](https://github.com/varunkamath/winnbot)")
}

} // verus!
