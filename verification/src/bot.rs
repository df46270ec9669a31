//! Decisions of the bot as a whole: which messages it reacts to and how
//! commands are recognised.

use vstd::prelude::*;
use vstd::string::StringExecFns;

verus! {

/// Whether a message is a roll to check against the watch list: it is, when
/// its author is the watched bot.
pub fn is_watched_roll(author: u64, watched_bot: u64) -> (b: bool)
    ensures
        b == (author == watched_bot),
{
    author == watched_bot
}

/// The prefix of text commands.
pub fn command_prefix() -> (r: String)
    ensures
        r@ == "!"@,
{
    String::from_str("!")
}

/// The other literal prefixes of text commands.
pub fn extra_prefixes() -> (r: Vec<String>)
    ensures
        r.len() == 4,
        r[0]@ == "🐱 "@,
        r[1]@ == "🐱"@,
        r[2]@ == "<:varunhappy:823224950738911242> "@,
        r[3]@ == "<:varunhappy:823224950738911242>"@,
{
    let mut r: Vec<String> = Vec::new();
    r.push(String::from_str("🐱 "));
    r.push(String::from_str("🐱"));
    r.push(String::from_str("<:varunhappy:823224950738911242> "));
    r.push(String::from_str("<:varunhappy:823224950738911242>"));
    r
}

/// The pattern of the spoken prefix of text commands.
pub fn spoken_prefix_pattern() -> (r: String)
    ensures
        r@ == "(yo|hey) (kitten|winn|winny),? can you (please |pwease )?"@,
{
    String::from_str("(yo|hey) (kitten|winn|winny),? can you (please |pwease )?")
}

/// What the bot shows it is watching.
pub fn activity_text() -> (r: String)
    ensures
        r@ == "for /help"@,
{
    String::from_str("for /help")
}

/// The title of the resource report.
pub fn load_report_title() -> (r: String)
    ensures
        r@ == "System Resource Load"@,
{
    String::from_str("System Resource Load")
}

} // verus!
