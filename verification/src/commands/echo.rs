//! Echoing a message to the channel.

use vstd::prelude::*;
use vstd::string::StringExecFns;

verus! {

/// The confirmation, seen only by the caller, of an echoed message.
pub fn echo_confirmation(message: &str) -> (r: String)
    ensures
        r@ == "Message echoed: \""@ + message@ + "\""@,
{
    let mut r = String::from_str("Message echoed: \"");
    r.append(message);
    r.append("\"");
    r
}

/// The help text of the echo command.
pub fn echo_help() -> (r: String)
    ensures
        r@ == "Echo a message to the channel. Example usage: /echo Hello, world!"@,
{
    String::from_str("Echo a message to the channel. Example usage: /echo Hello, world!")
}

} // verus!
