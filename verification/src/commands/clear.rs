//! Clearing recent messages of a channel.

use vstd::prelude::*;
use vstd::string::StringExecFns;
use crate::text::{decimal, push_decimal, str_eq};

verus! {

/// How many messages to clear: the requested number, 1 when none is given.
pub fn clear_amount(requested: Option<u8>) -> (n: u8)
    ensures
        n == match requested {
            Some(k) => k,
            None => 1u8,
        },
{
    match requested {
        Some(k) => k,
        None => 1,
    }
}

/// Whether the command's own message is deleted too: it is, unless the
/// command came as a slash command.
pub fn deletes_command_message(prefix: &str) -> (b: bool)
    ensures
        b == (prefix@ != "/"@),
{
    !str_eq(prefix, "/")
}

/// The confirmation of a clearing.
pub fn clear_reply(n: u8) -> (r: String)
    ensures
        r@ == decimal(n as nat) + " messages deleted"@,
{
    let mut r = String::new();
    push_decimal(&mut r, n as u64);
    r.append(" messages deleted");
    r
}

/// The help text of the clear command.
pub fn clear_help() -> (r: String)
    ensures
        r@ == "Clear messages from a channel. Example usage: /clear 5"@,
{
    String::from_str("Clear messages from a channel. Example usage: /clear 5")
}

} // verus!
