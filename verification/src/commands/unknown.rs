//! The answer to a command that does not exist.

use vstd::prelude::*;
use vstd::string::StringExecFns;

verus! {

/// The title of the answer.
pub fn unknown_title() -> (r: String)
    ensures
        r@ == "Unknown command"@,
{
    String::from_str("Unknown command")
}

/// The text of the answer.
pub fn unknown_text() -> (r: String)
    ensures
        r@ == "Use !help to see a list of commands"@,
{
    String::from_str("Use !help to see a list of commands")
}

} // verus!
