//! Watching another bot's rolls for names on the owner's list.

use vstd::prelude::*;
use vstd::string::StringExecFns;
use crate::text::{
    decimal, lemma_parse_decimal_roundtrip, lines_of, parse_u64_spec, push_decimal, str_eq,
    text_lines,
};

verus! {

/// The watch list: one name per line of its text.
pub fn watch_list(text: &str) -> (r: Vec<String>)
    ensures
        r.len() == text_lines(text@).len(),
        forall|k: int| 0 <= k < r.len() ==> #[trigger] r[k]@ == text_lines(text@)[k],
{
    lines_of(text)
}

/// The first position of `name` in `list`, or -1.
pub open spec fn first_position(list: Seq<Seq<char>>, name: Seq<char>) -> int
    decreases list.len(),
{
    if list.len() == 0 {
        -1
    } else {
        let p = first_position(list.drop_last(), name);
        if p >= 0 {
            p
        } else if list.last() == name {
            list.len() - 1
        } else {
            -1
        }
    }
}

/// The rank of `name` on the list: one more than its first position.
pub open spec fn list_rank_spec(list: Seq<Seq<char>>, name: Seq<char>) -> Option<nat> {
    let p = first_position(list, name);
    if p < 0 { None } else { Some((p + 1) as nat) }
}

proof fn lemma_first_position(list: Seq<Seq<char>>, name: Seq<char>)
    ensures
        first_position(list, name) < list.len(),
        first_position(list, name) >= 0 ==> list[first_position(list, name)] == name,
        first_position(list, name) >= 0 ==> forall|i: int|
            0 <= i < first_position(list, name) ==> #[trigger] list[i] != name,
        first_position(list, name) < 0 ==> !list.contains(name),
    decreases list.len(),
{
    if list.len() > 0 {
        lemma_first_position(list.drop_last(), name);
        let p = first_position(list.drop_last(), name);
        if p >= 0 {
            assert forall|i: int| 0 <= i < p implies #[trigger] list[i] != name by {
                assert(list.drop_last()[i] == list[i]);
            }
        }
        if first_position(list.drop_last(), name) < 0 {
            assert forall|i: int| 0 <= i < list.len() - 1 implies #[trigger] list[i] != name by {
                assert(list.drop_last()[i] == list[i]);
                assert(list.drop_last().contains(list.drop_last()[i]));
            }
        }
        if first_position(list, name) < 0 {
            assert forall|i: int| 0 <= i < list.len() implies list[i] != name by {
                if i < list.len() - 1 {
                    assert(list.drop_last()[i] == list[i]);
                    assert(list.drop_last().contains(list.drop_last()[i]));
                }
            }
        }
    }
}

/// A name is ranked exactly when it is on the list, and the rank points at
/// its first occurrence.
pub proof fn lemma_rank_is_first_occurrence(list: Seq<Seq<char>>, name: Seq<char>)
    ensures
        list_rank_spec(list, name) is Some <==> list.contains(name),
        list_rank_spec(list, name) matches Some(r) ==> 1 <= r <= list.len() && list[r - 1] == name
            && forall|i: int| 0 <= i < r - 1 ==> #[trigger] list[i] != name,
{
    lemma_first_position(list, name);
}

/// The rank of `name` on the list, if it is on it.
pub fn list_rank(list: &Vec<String>, name: &str) -> (r: Option<usize>)
    ensures
        match r {
            Some(k) => list_rank_spec(list@.map_values(|s: String| s@), name@) == Some(k as nat),
            None => list_rank_spec(list@.map_values(|s: String| s@), name@) is None,
        },
{
    let ghost lv = list@.map_values(|s: String| s@);
    let mut i: usize = 0;
    assert(lv.take(0) =~= Seq::<Seq<char>>::empty());
    while i < list.len()
        invariant
            i <= list.len(),
            lv == list@.map_values(|s: String| s@),
            first_position(lv.take(i as int), name@) == -1,
        decreases list.len() - i,
    {
        assert(lv.take(i + 1).drop_last() =~= lv.take(i as int));
        assert(lv[i as int] == list[i as int]@);
        if str_eq(list[i].as_str(), name) {
            proof {
                lemma_first_position_prefix(lv, name@, i as int);
            }
            return Some(i + 1);
        }
        i = i + 1;
    }
    assert(lv.take(i as int) =~= lv);
    None
}

proof fn lemma_first_position_prefix(list: Seq<Seq<char>>, name: Seq<char>, i: int)
    requires
        0 <= i < list.len(),
        first_position(list.take(i), name) == -1,
        list[i] == name,
    ensures
        first_position(list, name) == i,
    decreases list.len() - i,
{
    assert(list.take(i + 1).drop_last() =~= list.take(i));
    if i + 1 < list.len() {
        lemma_first_position_extend(list, name, i + 1);
    } else {
        assert(list.take(i + 1) =~= list);
    }
}

proof fn lemma_first_position_extend(list: Seq<Seq<char>>, name: Seq<char>, k: int)
    requires
        0 < k <= list.len(),
        first_position(list.take(k), name) >= 0,
    ensures
        first_position(list, name) == first_position(list.take(k), name),
    decreases list.len() - k,
{
    if k < list.len() {
        assert(list.take(k + 1).drop_last() =~= list.take(k));
        lemma_first_position_extend(list, name, k + 1);
    } else {
        assert(list.take(k) =~= list);
    }
}

/// The address of a message, as Discord links it: in a server
/// `https://discord.com/channels/<server>/<channel>/<message>`, in direct
/// messages `@me` in place of the server.
pub open spec fn message_link_spec(message: u64, channel: u64, guild: Option<u64>) -> Seq<char> {
    "https://discord.com/channels/"@ + match guild {
        Some(g) => decimal(g as nat),
        None => "@me"@,
    } + "/"@ + decimal(channel as nat) + "/"@ + decimal(message as nat)
}

/// `serenity::model::id::MessageId::link`: the source formats the server,
/// channel and message ids (each shown as its decimal number) into the link
/// that `message_link_spec` writes out. The ids must not be 0, as `MessageId::new`
/// and its kin panic on 0.
#[verifier::external_body]
fn discord_message_link(message: u64, channel: u64, guild: Option<u64>) -> (r: String)
    requires
        message != 0,
        channel != 0,
        guild != Some(0u64),
    ensures
        r@ == message_link_spec(message, channel, guild),
{
    serenity::model::id::MessageId::new(message).link(
        serenity::model::id::ChannelId::new(channel),
        guild.map(serenity::model::id::GuildId::new),
    )
}

/// The direct message that tells the owner where a listed name was rolled.
pub open spec fn notice_text(name: Seq<char>, rank: nat, link: Seq<char>) -> Seq<char> {
    name + " is rank "@ + decimal(rank) + " on the list\n[Message]("@ + link + ")"@
}

/// Where the rank number starts in a notice about `name`.
pub open spec fn notice_rank_start(name: Seq<char>) -> int {
    name.len() as int + 9
}

/// Where the rank number ends in a notice with message link `link`.
pub open spec fn notice_rank_end(t: Seq<char>, link: Seq<char>) -> int {
    t.len() - (link.len() + 24)
}

/// A notice reads "<name> is rank <number> on the list" followed by the
/// message link, and the number in it reads back as the rank it reports.
pub proof fn lemma_notice_reads_back(name: Seq<char>, rank: u64, link: Seq<char>)
    ensures
        ({
            let t = notice_text(name, rank as nat, link);
            let start = notice_rank_start(name);
            let end = notice_rank_end(t, link);
            &&& 0 <= start <= end <= t.len()
            &&& t.subrange(0, start) == name + " is rank "@
            &&& t.subrange(end, t.len() as int) == " on the list\n[Message]("@ + link + ")"@
            &&& parse_u64_spec(t.subrange(start, end)) == Some(rank)
        }),
{
    reveal_strlit(" is rank ");
    reveal_strlit(" on the list\n[Message](");
    reveal_strlit(")");
    lemma_parse_decimal_roundtrip(rank);
    let d = decimal(rank as nat);
    let a = " is rank "@;
    let b = " on the list\n[Message]("@;
    let c = ")"@;
    let t = notice_text(name, rank as nat, link);
    assert(t == name + a + d + b + link + c);
    let start = name.len() as int + 9;
    let end = t.len() - (link.len() + 24);
    assert(t.subrange(0, start) =~= name + a);
    assert(t.subrange(start, end) =~= d);
    assert(t.subrange(end, t.len() as int) =~= b + link + c);
}

/// The notice names the rank of the name's first occurrence on the list: when
/// `name` first occurs at position `p`, the number in the notice reads back as `p + 1`.
pub proof fn lemma_notice_states_first_position(
    list: Seq<Seq<char>>,
    name: Seq<char>,
    link: Seq<char>,
    p: int,
)
    requires
        0 <= p < list.len(),
        list[p] == name,
        forall|i: int| 0 <= i < p ==> #[trigger] list[i] != name,
        p + 1 <= u64::MAX,
    ensures
        list_rank_spec(list, name) == Some((p + 1) as nat),
        ({
            let t = notice_text(name, (p + 1) as nat, link);
            parse_u64_spec(t.subrange(notice_rank_start(name), notice_rank_end(t, link))) == Some(
                (p + 1) as u64,
            )
        }),
{
    lemma_first_position(list, name);
    let q = first_position(list, name);
    assert(list.contains(name)) by {
        assert(list[p] == name);
    }
    if q < p {
        assert(list[q] != name);
    } else if q > p {
        assert(list[p] != name);
    }
    lemma_notice_reads_back(name, (p + 1) as u64, link);
}

/// The notice for a roll of `name` in message `message` of `channel`, or
/// `None` when the name is not on the list.
pub fn roll_notice(
    list: &Vec<String>,
    name: &str,
    message: u64,
    channel: u64,
    guild: Option<u64>,
) -> (r: Option<String>)
    requires
        message != 0,
        channel != 0,
        guild != Some(0u64),
    ensures
        match list_rank_spec(list@.map_values(|s: String| s@), name@) {
            Some(k) => r matches Some(t) && t@ == notice_text(
                name@,
                k,
                message_link_spec(message, channel, guild),
            ) && parse_u64_spec(
                t@.subrange(
                    notice_rank_start(name@),
                    notice_rank_end(t@, message_link_spec(message, channel, guild)),
                ),
            ) == Some(k as u64),
            None => r is None,
        },
{
    match list_rank(list, name) {
        None => None,
        Some(k) => {
            let link = discord_message_link(message, channel, guild);
            let mut t = String::from_str(name);
            t.append(" is rank ");
            push_decimal(&mut t, k as u64);
            t.append(" on the list\n[Message](");
            t.append(link.as_str());
            t.append(")");
            proof {
                lemma_notice_reads_back(name@, k as u64, link@);
            }
            Some(t)
        },
    }
}

} // verus!
