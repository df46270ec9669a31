//! Archiving the history of a channel into a database, by its owner only.

use vstd::prelude::*;
use vstd::string::StringExecFns;
use crate::text::{decimal, lemma_parse_decimal_roundtrip, parse_u64, parse_u64_spec};

verus! {

/// Who may archive a channel.
#[derive(PartialEq, Eq, Structural, Clone, Copy, Debug)]
pub enum ArchiveAccess {
    /// No owner is configured: the command does nothing.
    NotConfigured,
    /// The author is the configured owner.
    Allowed,
    /// The author is someone else.
    Refused,
}

/// Who may archive, given the configured owner id (if any) and the author's id.
pub open spec fn archive_access_spec(owner_setting: Option<Seq<char>>, author: u64) -> ArchiveAccess {
    match owner_setting {
        None => ArchiveAccess::NotConfigured,
        Some(s) => if parse_u64_spec(s) == Some(author) {
            ArchiveAccess::Allowed
        } else {
            ArchiveAccess::Refused
        },
    }
}

/// The owner, configured by the decimal text of its id, may archive; anyone
/// else is refused; without a configured owner nobody is answered.
pub proof fn lemma_only_owner_archives(owner: u64, author: u64)
    ensures
        archive_access_spec(Some(decimal(owner as nat)), author) == (if author == owner {
            ArchiveAccess::Allowed
        } else {
            ArchiveAccess::Refused
        }),
        archive_access_spec(None, author) == ArchiveAccess::NotConfigured,
{
    lemma_parse_decimal_roundtrip(owner);
}

/// Decides whether `author` may archive. The configured owner id, when there
/// is one, must be a decimal number.
pub fn archive_access(owner_setting: Option<&str>, author: u64) -> (r: ArchiveAccess)
    requires
        owner_setting matches Some(s) ==> parse_u64_spec(s@) is Some,
    ensures
        r == archive_access_spec(
            match owner_setting {
                Some(s) => Some(s@),
                None => None,
            },
            author,
        ),
{
    match owner_setting {
        None => ArchiveAccess::NotConfigured,
        Some(s) => match parse_u64(s) {
            Some(owner) => if owner == author {
                ArchiveAccess::Allowed
            } else {
                ArchiveAccess::Refused
            },
            None => ArchiveAccess::Refused,
        },
    }
}

/// The statement that creates the archive table when it is missing.
pub fn create_table_statement() -> (r: String)
    ensures
        r@ == "CREATE TABLE IF NOT EXISTS messages (\n                    id TEXT PRIMARY KEY,\n                    content TEXT NOT NULL,\n                    author TEXT NOT NULL,\n                    channel TEXT NOT NULL,\n                    timestamp TEXT NOT NULL\n                )"@,
{
    String::from_str("CREATE TABLE IF NOT EXISTS messages (\n                    id TEXT PRIMARY KEY,\n                    content TEXT NOT NULL,\n                    author TEXT NOT NULL,\n                    channel TEXT NOT NULL,\n                    timestamp TEXT NOT NULL\n                )")
}

/// The statement that stores one message, with its five values as parameters.
pub fn insert_statement() -> (r: String)
    ensures
        r@ == "INSERT INTO messages (id, content, author, channel, timestamp) VALUES (?1, ?2, ?3, ?4, ?5)"@,
{
    String::from_str("INSERT INTO messages (id, content, author, channel, timestamp) VALUES (?1, ?2, ?3, ?4, ?5)")
}

/// The title of the refusal.
pub fn refusal_title() -> (r: String)
    ensures
        r@ == "⚠️ Unauthorized"@,
{
    String::from_str("⚠️ Unauthorized")
}

/// The text of the refusal.
pub fn refusal_text() -> (r: String)
    ensures
        r@ == "You are not authorized to use this command"@,
{
    String::from_str("You are not authorized to use this command")
}

} // verus!
