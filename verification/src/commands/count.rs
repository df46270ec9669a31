//! Counting the messages of a channel, a page of history at a time.

use vstd::prelude::*;
use vstd::string::StringExecFns;
use crate::text::{decimal, push_decimal};

verus! {

/// The most messages that one history request asks for.
pub const PAGE_SIZE: u8 = 100;

/// The number of messages in a sequence of pages.
pub open spec fn total_messages(pages: Seq<nat>) -> nat
    decreases pages.len(),
{
    if pages.len() == 0 {
        0
    } else {
        total_messages(pages.drop_last()) + pages.last()
    }
}

/// A walk backwards through the history of a channel that counts what it sees.
pub struct HistoryCounter {
    pub count: usize,
}

impl HistoryCounter {
    /// A walk that has seen nothing yet.
    pub fn new() -> (r: HistoryCounter)
        ensures
            r.count == 0,
    {
        HistoryCounter { count: 0 }
    }

    /// Takes in one page of history, newest message first, given by the
    /// messages' ids. Answers the id before which the next page is fetched, or
    /// `None` when the page is empty and the walk is over.
    pub fn on_page(&mut self, page: &Vec<u64>) -> (next: Option<u64>)
        requires
            old(self).count + page.len() <= usize::MAX,
        ensures
            final(self).count == old(self).count + page.len(),
            page.len() == 0 ==> next is None,
            page.len() > 0 ==> next == Some(page@.last()),
    {
        self.count = self.count + page.len();
        if page.len() == 0 {
            None
        } else {
            Some(page[page.len() - 1])
        }
    }
}

/// A walk that starts from nothing and takes in pages of these sizes has
/// counted every message of them.
pub proof fn lemma_count_is_total(pages: Seq<nat>, counts: Seq<nat>)
    requires
        counts.len() == pages.len() + 1,
        counts[0] == 0,
        forall|i: int| 0 <= i < pages.len() ==> #[trigger] counts[i + 1] == counts[i] + pages[i],
    ensures
        counts.last() == total_messages(pages),
    decreases pages.len(),
{
    if pages.len() > 0 {
        let p = pages.drop_last();
        let c = counts.drop_last();
        assert forall|i: int| 0 <= i < p.len() implies #[trigger] c[i + 1] == c[i] + p[i] by {
            assert(counts[i + 1] == counts[i] + pages[i]);
        }
        lemma_count_is_total(p, c);
        assert(counts[pages.len() as int] == counts[pages.len() - 1] + pages[pages.len() - 1]);
    }
}

/// The text of the count report.
pub fn count_report(count: u64, seconds: u64) -> (r: String)
    ensures
        r@ == "Counted "@ + decimal(count as nat) + " messages in this channel. Time elapsed: "@
            + decimal(seconds as nat) + " seconds"@,
{
    let mut r = String::from_str("Counted ");
    push_decimal(&mut r, count);
    r.append(" messages in this channel. Time elapsed: ");
    push_decimal(&mut r, seconds);
    r.append(" seconds");
    r
}

/// The title of the count report.
pub fn count_title() -> (r: String)
    ensures
        r@ == "Message Count"@,
{
    String::from_str("Message Count")
}

/// The help text of the count command.
pub fn count_help() -> (r: String)
    ensures
        r@ == "Count the number of messages in a channel"@,
{
    String::from_str("Count the number of messages in a channel")
}

} // verus!
