//! Rocket League rank lookup: reading the command's arguments, choosing the
//! standard playlists of a tracker profile, and composing the report.

use vstd::prelude::*;
use vstd::string::StringExecFns;
use crate::text::{
    is_ws, lemma_ws_tokens_are_words,
    decimal, push_decimal,
    chars_eq, find_from, lemma_find_from_bounds, parse_u64, parse_u64_spec, split_chars, split_on,
    chars_of, char_index_at_byte, lowercase, lemma_utf8_len_prefix, slice_chars, split_whitespace_chars,
    starts_with, str_eq, string_of, to_lowercase, trim, trim_chars, utf8_len, ws_tokens,
};

verus! {

/// The reply when the command lacks a username.
pub fn usage_text() -> (r: String)
    ensures
        r@ == "Not enough arguments. Usage: !r <username> <platform>"@,
{
    String::from_str("Not enough arguments. Usage: !r <username> <platform>")
}

/// Whether byte offset `b` of the UTF-8 text `s` falls between two characters
/// (or at its end).
pub open spec fn byte_boundary(s: Seq<char>, b: int) -> bool {
    exists|k: int| 0 <= k <= s.len() && utf8_len(s.take(k)) == b
}

/// The number of characters held by the first `b` bytes of `s`.
pub open spec fn chars_in_bytes(s: Seq<char>, b: int) -> int {
    choose|k: int| 0 <= k <= s.len() && utf8_len(s.take(k)) == b
}

/// The full command word whose arguments start after its eighth byte.
pub open spec fn long_prefix() -> Seq<char> {
    seq!['!', 'r', 'l', 'r', 'a', 'n', 'k']
}

/// The byte offset where the arguments start: 8 after `!rlrank`, 3 otherwise.
pub open spec fn argument_offset(content: Seq<char>) -> int {
    if content.len() >= 7 && content.take(7) == long_prefix() {
        8
    } else {
        3
    }
}

/// Whether slicing the message at its argument offset stays inside the text and
/// on a character boundary, which the command needs of a message of three or more bytes.
pub open spec fn rank_command_sliceable(content: Seq<char>) -> bool {
    utf8_len(content) < 3 || byte_boundary(content, argument_offset(content))
}

/// The arguments of the command: the message after its offset, trimmed.
pub open spec fn argument_text(content: Seq<char>) -> Seq<char> {
    trim(content.skip(chars_in_bytes(content, argument_offset(content))))
}

/// Whether `word`, lower-cased, names one of the four platforms.
pub open spec fn is_platform(word: Seq<char>) -> bool {
    let l = lowercase(word);
    l == "steam"@ || l == "epic"@ || l == "psn"@ || l == "xbox"@
}

/// The username and platform that the argument words ask for, or `None` when
/// the command must answer with its usage: no word at all, or a single word
/// that names a platform. A single other word is looked up on "epic"; when the
/// first word names a platform, the two words trade places.
pub open spec fn resolve_arguments(words: Seq<Seq<char>>) -> Option<(Seq<char>, Seq<char>)> {
    if words.len() < 1 {
        None
    } else if words.len() == 1 && is_platform(words[0]) {
        None
    } else {
        let user = words[0];
        let platform = if words.len() == 1 { "epic"@ } else { words[1] };
        if is_platform(user) {
            Some((platform, user))
        } else {
            Some((user, platform))
        }
    }
}

/// The username and platform that a rank command message asks for.
pub open spec fn rank_request(content: Seq<char>) -> Option<(Seq<char>, Seq<char>)> {
    if utf8_len(content) < 3 {
        None
    } else {
        resolve_arguments(ws_tokens(argument_text(content)))
    }
}

/// What a rank command asks for.
pub struct RankRequest {
    pub username: String,
    pub platform: String,
}

/// Whether `word`, lower-cased, names a platform.
pub fn names_platform(word: &str) -> (b: bool)
    ensures
        b == is_platform(word@),
{
    let l = to_lowercase(word);
    str_eq(l.as_str(), "steam") || str_eq(l.as_str(), "epic") || str_eq(l.as_str(), "psn")
        || str_eq(l.as_str(), "xbox")
}

proof fn lemma_utf8_len_take_monotone(s: Seq<char>, i: int, j: int)
    requires
        0 <= i < j <= s.len(),
    ensures
        utf8_len(s.take(i)) < utf8_len(s.take(j)),
    decreases j - i,
{
    assert(s.take(j).drop_last() =~= s.take(j - 1));
    if i < j - 1 {
        lemma_utf8_len_take_monotone(s, i, j - 1);
    }
}

proof fn lemma_chars_in_bytes(s: Seq<char>, b: int, k: int)
    requires
        0 <= k <= s.len(),
        utf8_len(s.take(k)) == b,
    ensures
        chars_in_bytes(s, b) == k,
{
    let c = chars_in_bytes(s, b);
    if c < k {
        lemma_utf8_len_take_monotone(s, c, k);
    } else if k < c {
        lemma_utf8_len_take_monotone(s, k, c);
    }
}

/// Reads a rank command: the username and platform to look up, or `None` when
/// the reply is the usage text.
pub fn parse_rank_command(content: &str) -> (r: Option<RankRequest>)
    requires
        rank_command_sliceable(content@),
    ensures
        match r {
            Some(q) => rank_request(content@) == Some((q.username@, q.platform@)),
            None => rank_request(content@).is_none(),
        },
{
    let v = chars_of(content);
    proof {
        lemma_utf8_len_prefix(v@, v@.len() as int);
        assert(v@.take(v@.len() as int) =~= v@);
    }
    let total = utf8_len_of_bounded(&v, 3);
    if total < 3 {
        return None;
    }
    let offset: usize = if starts_with(&v, "!rlrank") {
        8
    } else {
        3
    };
    proof {
        reveal_strlit("!rlrank");
        assert("!rlrank"@ =~= long_prefix());
    }
    let start = match char_index_at_byte(&v, offset) {
        Some(k) => k,
        None => {
            return None;
        },
    };
    proof {
        lemma_chars_in_bytes(v@, offset as int, start as int);
    }
    let rest = slice_chars(&v, start, v.len());
    assert(rest@ =~= v@.skip(start as int));
    let args = trim_chars(&rest);
    let words = split_whitespace_chars(&args);
    if words.len() < 1 {
        return None;
    }
    let first = string_of(&words[0]);
    if words.len() == 1 && names_platform(first.as_str()) {
        return None;
    }
    let second = if words.len() == 1 {
        String::from_str("epic")
    } else {
        string_of(&words[1])
    };
    if names_platform(first.as_str()) {
        Some(RankRequest { username: second, platform: first })
    } else {
        Some(RankRequest { username: first, platform: second })
    }
}

/// Whether a message can be read as a rank command: it is shorter than three
/// bytes, or its argument offset falls on a character boundary.
pub fn rank_command_readable(content: &str) -> (b: bool)
    ensures
        b == rank_command_sliceable(content@),
{
    let v = chars_of(content);
    let total = utf8_len_of_bounded(&v, 3);
    if total < 3 {
        return true;
    }
    let offset: usize = if starts_with(&v, "!rlrank") {
        8
    } else {
        3
    };
    proof {
        reveal_strlit("!rlrank");
        assert("!rlrank"@ =~= long_prefix());
    }
    match char_index_at_byte(&v, offset) {
        Some(_) => true,
        None => false,
    }
}

/// The UTF-8 length of `v` when it is below `limit`, else some value at least `limit`.
fn utf8_len_of_bounded(v: &Vec<char>, limit: usize) -> (r: usize)
    requires
        limit <= 64,
    ensures
        r < limit ==> r == utf8_len(v@),
        r >= limit ==> utf8_len(v@) >= limit,
{
    let mut k: usize = 0;
    let mut bytes: usize = 0;
    assert(v@.take(0) =~= Seq::<char>::empty());
    while k < v.len() && bytes < limit
        invariant
            k <= v.len(),
            bytes == utf8_len(v@.take(k as int)),
            bytes <= limit + 4,
            limit <= 64,
        decreases v.len() - k,
    {
        assert(v@.take(k + 1).drop_last() =~= v@.take(k as int));
        let u = v[k] as u32;
        let w: usize = if u < 0x80 { 1 } else if u < 0x800 { 2 } else if u < 0x10000 { 3 } else { 4 };
        bytes = bytes + w;
        k = k + 1;
    }
    if k == v.len() {
        assert(v@.take(k as int) =~= v@);
    } else {
        proof {
            lemma_utf8_len_take_monotone_to_end(v@, k as int);
        }
    }
    bytes
}

proof fn lemma_utf8_len_take_monotone_to_end(s: Seq<char>, k: int)
    requires
        0 <= k <= s.len(),
    ensures
        utf8_len(s.take(k)) <= utf8_len(s),
{
    if k < s.len() {
        lemma_utf8_len_take_monotone(s, k, s.len() as int);
    }
    assert(s.take(s.len() as int) =~= s);
}

/// When exactly one of two words names a platform, the order in which they
/// are given does not change the request.
pub proof fn lemma_argument_order(a: Seq<char>, b: Seq<char>)
    requires
        is_platform(a),
        !is_platform(b),
    ensures
        resolve_arguments(seq![a, b]) == resolve_arguments(seq![b, a]),
        resolve_arguments(seq![a, b]) == Some((b, a)),
{
}

/// The username and platform of a request are single words: non-empty and
/// without white space.
pub proof fn lemma_request_is_words(content: Seq<char>)
    ensures
        rank_request(content) matches Some((u, p)) ==> {
            &&& u.len() > 0
            &&& p.len() > 0
            &&& forall|i: int| 0 <= i < u.len() ==> !is_ws(#[trigger] u[i])
            &&& forall|i: int| 0 <= i < p.len() ==> !is_ws(#[trigger] p[i])
        },
{
    if utf8_len(content) >= 3 {
        let words = ws_tokens(argument_text(content));
        lemma_ws_tokens_are_words(argument_text(content));
        reveal_strlit("epic");
        if words.len() >= 1 {
            assert(words[0].len() > 0);
            assert forall|i: int| 0 <= i < words[0].len() implies !is_ws(#[trigger] words[0][i]) by {}
            if words.len() >= 2 {
                assert(words[1].len() > 0);
                assert forall|i: int| 0 <= i < words[1].len() implies !is_ws(#[trigger] words[1][i]) by {}
            }
            assert forall|i: int| 0 <= i < "epic"@.len() implies !is_ws(#[trigger] "epic"@[i]) by {}
        }
    }
}

/// A lone platform name is answered with the usage text; a lone username is
/// looked up on "epic".
pub proof fn lemma_single_word(w: Seq<char>)
    ensures
        is_platform(w) ==> resolve_arguments(seq![w]).is_none(),
        !is_platform(w) ==> resolve_arguments(seq![w]) == Some((w, "epic"@)),
{
}


/// One segment of a tracker profile, holding what the report reads of it.
pub struct TrackerSegment {
    /// The segment's `type`.
    pub kind: String,
    /// `metadata.name`: the playlist's name.
    pub playlist: Option<String>,
    /// `stats.tier.metadata.name`, such as "Diamond II".
    pub tier: Option<String>,
    /// `stats.division.metadata.name`, such as "Division III".
    pub division: Option<String>,
    /// `stats.rating.value` when it is an unsigned integer.
    pub mmr: Option<u64>,
    /// `stats.tier.metadata.iconUrl`.
    pub icon_url: Option<String>,
}

/// The rank of a player in one playlist.
pub struct PlaylistRank {
    pub playlist: String,
    pub tier: String,
    pub division: String,
    pub mmr: u64,
    pub icon_url: String,
}

/// The mathematical value of a [`PlaylistRank`].
pub struct RankView {
    pub playlist: Seq<char>,
    pub tier: Seq<char>,
    pub division: Seq<char>,
    pub mmr: u64,
    pub icon_url: Seq<char>,
}

impl View for PlaylistRank {
    type V = RankView;

    open spec fn view(&self) -> RankView {
        RankView {
            playlist: self.playlist@,
            tier: self.tier@,
            division: self.division@,
            mmr: self.mmr,
            icon_url: self.icon_url@,
        }
    }
}

/// Whether a segment describes a playlist.
pub open spec fn is_playlist_segment(s: TrackerSegment) -> bool {
    s.kind@ == "playlist"@
}

/// Whether a segment carries every field that the report reads.
pub open spec fn segment_complete(s: TrackerSegment) -> bool {
    s.playlist is Some && s.tier is Some && s.division is Some && s.mmr is Some && s.icon_url is Some
}

/// Whether every playlist segment carries every field that the report reads.
pub open spec fn playlists_complete(segments: Seq<TrackerSegment>) -> bool {
    forall|i: int|
        0 <= i < segments.len() && is_playlist_segment(#[trigger] segments[i]) ==> segment_complete(
            segments[i],
        )
}

/// The rank that a complete segment records.
pub open spec fn segment_rank(s: TrackerSegment) -> RankView {
    RankView {
        playlist: s.playlist.unwrap()@,
        tier: s.tier.unwrap()@,
        division: s.division.unwrap()@,
        mmr: s.mmr.unwrap(),
        icon_url: s.icon_url.unwrap()@,
    }
}

/// The ranks of the playlist segments, in profile order.
pub open spec fn playlist_ranks_spec(segments: Seq<TrackerSegment>) -> Seq<RankView>
    decreases segments.len(),
{
    if segments.len() == 0 {
        seq![]
    } else {
        let rest = playlist_ranks_spec(segments.drop_last());
        if is_playlist_segment(segments.last()) {
            rest.push(segment_rank(segments.last()))
        } else {
            rest
        }
    }
}

fn clone_string(s: &String) -> (r: String)
    ensures
        r@ == s@,
{
    s.clone()
}

fn copy_rank(r: &PlaylistRank) -> (c: PlaylistRank)
    ensures
        c@ == r@,
{
    PlaylistRank {
        playlist: clone_string(&r.playlist),
        tier: clone_string(&r.tier),
        division: clone_string(&r.division),
        mmr: r.mmr,
        icon_url: clone_string(&r.icon_url),
    }
}

/// The ranks of the playlist segments of a profile, in profile order.
pub fn playlist_ranks(segments: &Vec<TrackerSegment>) -> (r: Vec<PlaylistRank>)
    requires
        playlists_complete(segments@),
    ensures
        r@.map_values(|x: PlaylistRank| x@) == playlist_ranks_spec(segments@),
{
    let mut out: Vec<PlaylistRank> = Vec::new();
    let mut i: usize = 0;
    assert(segments@.take(0) =~= Seq::<TrackerSegment>::empty());
    while i < segments.len()
        invariant
            i <= segments.len(),
            playlists_complete(segments@),
            out@.map_values(|x: PlaylistRank| x@) == playlist_ranks_spec(segments@.take(i as int)),
        decreases segments.len() - i,
    {
        let seg = &segments[i];
        assert(segments@.take(i + 1).drop_last() =~= segments@.take(i as int));
        assert(segments@.take(i + 1).last() == segments@[i as int]);
        if str_eq(seg.kind.as_str(), "playlist") {
            assert(segment_complete(segments@[i as int]));
            let rank = match (&seg.playlist, &seg.tier, &seg.division, seg.mmr, &seg.icon_url) {
                (Some(p), Some(t), Some(d), Some(m), Some(u)) => PlaylistRank {
                    playlist: clone_string(p),
                    tier: clone_string(t),
                    division: clone_string(d),
                    mmr: m,
                    icon_url: clone_string(u),
                },
                _ => {
                    assert(false);
                    return out;
                },
            };
            let ghost before = out@;
            out.push(rank);
            assert(out@.map_values(|x: PlaylistRank| x@) =~= before.map_values(
                |x: PlaylistRank| x@,
            ).push(rank@));
        }
        i = i + 1;
    }
    assert(segments@.take(i as int) =~= segments@);
    out
}

/// Whether a playlist is one of the three standard ranked playlists.
pub open spec fn is_standard_playlist(name: Seq<char>) -> bool {
    name == "Ranked Duel 1v1"@ || name == "Ranked Doubles 2v2"@ || name == "Ranked Standard 3v3"@
}

/// The ranks of the standard playlists, in the given order.
pub open spec fn standard_ranks_spec(ranks: Seq<RankView>) -> Seq<RankView>
    decreases ranks.len(),
{
    if ranks.len() == 0 {
        seq![]
    } else {
        let rest = standard_ranks_spec(ranks.drop_last());
        if is_standard_playlist(ranks.last().playlist) {
            rest.push(ranks.last())
        } else {
            rest
        }
    }
}

/// Whether a rank is of one of the three standard playlists.
pub open spec fn standard_playlist_rank(r: RankView) -> bool {
    r.playlist == "Ranked Duel 1v1"@ || r.playlist == "Ranked Doubles 2v2"@ || r.playlist
        == "Ranked Standard 3v3"@
}

/// The standard ranks are exactly the ranks of the three standard playlists,
/// in order: any other playlist is left out.
pub proof fn lemma_standard_ranks_filter(ranks: Seq<RankView>)
    ensures
        standard_ranks_spec(ranks) == ranks.filter(|r: RankView| standard_playlist_rank(r)),
    decreases ranks.len(),
{
    reveal_with_fuel(Seq::<RankView>::filter, 1);
    if ranks.len() > 0 {
        lemma_standard_ranks_filter(ranks.drop_last());
    }
}

/// Keeps the ranks of the three standard playlists.
pub fn standard_ranks(ranks: &Vec<PlaylistRank>) -> (r: Vec<PlaylistRank>)
    ensures
        r@.map_values(|x: PlaylistRank| x@) == standard_ranks_spec(
            ranks@.map_values(|x: PlaylistRank| x@),
        ),
{
    let ghost all = ranks@.map_values(|x: PlaylistRank| x@);
    let mut out: Vec<PlaylistRank> = Vec::new();
    let mut i: usize = 0;
    assert(all.take(0) =~= Seq::<RankView>::empty());
    while i < ranks.len()
        invariant
            i <= ranks.len(),
            all == ranks@.map_values(|x: PlaylistRank| x@),
            out@.map_values(|x: PlaylistRank| x@) == standard_ranks_spec(all.take(i as int)),
        decreases ranks.len() - i,
    {
        let r = &ranks[i];
        assert(all.take(i + 1).drop_last() =~= all.take(i as int));
        assert(all.take(i + 1).last() == r@);
        let name = r.playlist.as_str();
        if str_eq(name, "Ranked Duel 1v1") || str_eq(name, "Ranked Doubles 2v2") || str_eq(
            name,
            "Ranked Standard 3v3",
        ) {
            let c = copy_rank(r);
            let ghost before = out@;
            out.push(c);
            assert(out@.map_values(|x: PlaylistRank| x@) =~= before.map_values(
                |x: PlaylistRank| x@,
            ).push(c@));
        }
        i = i + 1;
    }
    assert(all.take(i as int) =~= all);
    out
}

/// The index and rating of the best rank among the first `n` ranks: the first
/// rank whose rating beats every rating before it, starting from rating 0 at
/// index 0; ranks of a playlist named "Un-Ranked" take no part.
pub open spec fn best_rank(ranks: Seq<RankView>, n: int) -> (int, u64)
    decreases n,
{
    if n <= 0 {
        (0, 0)
    } else {
        let prev = best_rank(ranks, n - 1);
        let r = ranks[n - 1];
        if r.playlist != "Un-Ranked"@ && r.mmr > prev.1 {
            (n - 1, r.mmr)
        } else {
            prev
        }
    }
}

/// The index of the highest rated rank: the first with the greatest rating, or 0.
pub fn highest_rank_index(ranks: &Vec<PlaylistRank>) -> (r: usize)
    ensures
        r as int == best_rank(ranks@.map_values(|x: PlaylistRank| x@), ranks.len() as int).0,
        ranks.len() > 0 ==> r < ranks.len(),
{
    let ghost all = ranks@.map_values(|x: PlaylistRank| x@);
    let mut best: u64 = 0;
    let mut index: usize = 0;
    let mut i: usize = 0;
    while i < ranks.len()
        invariant
            i <= ranks.len(),
            all == ranks@.map_values(|x: PlaylistRank| x@),
            (index as int, best) == best_rank(all, i as int),
            i == 0 ==> index == 0,
            i > 0 ==> index < i,
        decreases ranks.len() - i,
    {
        let r = &ranks[i];
        assert(all[i as int] == r@);
        if !str_eq(r.playlist.as_str(), "Un-Ranked") && r.mmr > best {
            best = r.mmr;
            index = i;
        }
        i = i + 1;
    }
    index
}

/// The best rank's rating is at least the rating of every rank that takes part,
/// and no rank before it has the same rating.
pub proof fn lemma_best_rank_is_highest(ranks: Seq<RankView>, n: int)
    requires
        0 <= n <= ranks.len(),
    ensures
        forall|i: int|
            0 <= i < n && ranks[i].playlist != "Un-Ranked"@ ==> #[trigger] ranks[i].mmr <= best_rank(
                ranks,
                n,
            ).1,
        best_rank(ranks, n).1 > 0 ==> {
            let k = best_rank(ranks, n).0;
            &&& 0 <= k < n
            &&& ranks[k].mmr == best_rank(ranks, n).1
            &&& forall|i: int|
                0 <= i < k && ranks[i].playlist != "Un-Ranked"@ ==> #[trigger] ranks[i].mmr
                    < ranks[k].mmr
        },
    decreases n,
{
    if n > 0 {
        lemma_best_rank_is_highest(ranks, n - 1);
    }
}


/// The emoji shown beside a tier.
pub open spec fn tier_emoji(tier: Seq<char>) -> Seq<char> {
    if tier == "Bronze I"@ {
        "<:Bronze1:908453289945886760>"@
    } else if tier == "Bronze II"@ {
        "<:Bronze2:908453289996197948>"@
    } else if tier == "Bronze III"@ {
        "<:Bronze3:908453289421590549>"@
    } else if tier == "Silver I"@ {
        "<:Silver1:908453289929089075>"@
    } else if tier == "Silver II"@ {
        "<:Silver2:908453289769717791>"@
    } else if tier == "Silver III"@ {
        "<:Silver3:908453289899728917>"@
    } else if tier == "Gold I"@ {
        "<:Gold1:908453289799057428>"@
    } else if tier == "Gold II"@ {
        "<:Gold2:908453289807470602>"@
    } else if tier == "Gold III"@ {
        "<:Gold3:908453289857785876>"@
    } else if tier == "Platinum I"@ {
        "<:Plat1:908453289643888721>"@
    } else if tier == "Platinum II"@ {
        "<:Plat2:908453289878757396>"@
    } else if tier == "Platinum III"@ {
        "<:Plat3:908453289572585543>"@
    } else if tier == "Diamond I"@ {
        "<:Diamond1:908453289807446037>"@
    } else if tier == "Diamond II"@ {
        "<:Diamond2:908453289903939584>"@
    } else if tier == "Diamond III"@ {
        "<:Diamond3:908453289836814376>"@
    } else if tier == "Champion I"@ {
        "<:Champ1:908453289820033104>"@
    } else if tier == "Champion II"@ {
        "<:Champ2:908453289857781800>"@
    } else if tier == "Champion III"@ {
        "<:Champ3:908453289945866250>"@
    } else if tier == "Grand Champion I"@ {
        "<:GrandChamp1:908455642061238293>"@
    } else if tier == "Grand Champion II"@ {
        "<:GrandChamp2:908455641838944276>"@
    } else if tier == "Grand Champion III"@ {
        "<:GrandChamp3:908455642245759006>"@
    } else if tier == "Supersonic Legend"@ {
        "<:SupersonicLegend:757171265768259664>"@
    } else {
        "<:Unranked:908466188588310548>"@
    }
}

/// Whether `tier` is one of the tiers that have an emoji of their own.
pub open spec fn is_named_tier(tier: Seq<char>) -> bool {
    tier == "Bronze I"@
        || tier == "Bronze II"@
        || tier == "Bronze III"@
        || tier == "Silver I"@
        || tier == "Silver II"@
        || tier == "Silver III"@
        || tier == "Gold I"@
        || tier == "Gold II"@
        || tier == "Gold III"@
        || tier == "Platinum I"@
        || tier == "Platinum II"@
        || tier == "Platinum III"@
        || tier == "Diamond I"@
        || tier == "Diamond II"@
        || tier == "Diamond III"@
        || tier == "Champion I"@
        || tier == "Champion II"@
        || tier == "Champion III"@
        || tier == "Grand Champion I"@
        || tier == "Grand Champion II"@
        || tier == "Grand Champion III"@
        || tier == "Supersonic Legend"@
}

proof fn lemma_tier_names_differ()
    ensures
        "Bronze I"@ != "Bronze II"@,
        "Bronze I"@ != "Bronze III"@,
        "Bronze I"@ != "Silver I"@,
        "Bronze I"@ != "Silver II"@,
        "Bronze I"@ != "Silver III"@,
        "Bronze I"@ != "Gold I"@,
        "Bronze I"@ != "Gold II"@,
        "Bronze I"@ != "Gold III"@,
        "Bronze I"@ != "Platinum I"@,
        "Bronze I"@ != "Platinum II"@,
        "Bronze I"@ != "Platinum III"@,
        "Bronze I"@ != "Diamond I"@,
        "Bronze I"@ != "Diamond II"@,
        "Bronze I"@ != "Diamond III"@,
        "Bronze I"@ != "Champion I"@,
        "Bronze I"@ != "Champion II"@,
        "Bronze I"@ != "Champion III"@,
        "Bronze I"@ != "Grand Champion I"@,
        "Bronze I"@ != "Grand Champion II"@,
        "Bronze I"@ != "Grand Champion III"@,
        "Bronze I"@ != "Supersonic Legend"@,
        "Bronze II"@ != "Bronze III"@,
        "Bronze II"@ != "Silver I"@,
        "Bronze II"@ != "Silver II"@,
        "Bronze II"@ != "Silver III"@,
        "Bronze II"@ != "Gold I"@,
        "Bronze II"@ != "Gold II"@,
        "Bronze II"@ != "Gold III"@,
        "Bronze II"@ != "Platinum I"@,
        "Bronze II"@ != "Platinum II"@,
        "Bronze II"@ != "Platinum III"@,
        "Bronze II"@ != "Diamond I"@,
        "Bronze II"@ != "Diamond II"@,
        "Bronze II"@ != "Diamond III"@,
        "Bronze II"@ != "Champion I"@,
        "Bronze II"@ != "Champion II"@,
        "Bronze II"@ != "Champion III"@,
        "Bronze II"@ != "Grand Champion I"@,
        "Bronze II"@ != "Grand Champion II"@,
        "Bronze II"@ != "Grand Champion III"@,
        "Bronze II"@ != "Supersonic Legend"@,
        "Bronze III"@ != "Silver I"@,
        "Bronze III"@ != "Silver II"@,
        "Bronze III"@ != "Silver III"@,
        "Bronze III"@ != "Gold I"@,
        "Bronze III"@ != "Gold II"@,
        "Bronze III"@ != "Gold III"@,
        "Bronze III"@ != "Platinum I"@,
        "Bronze III"@ != "Platinum II"@,
        "Bronze III"@ != "Platinum III"@,
        "Bronze III"@ != "Diamond I"@,
        "Bronze III"@ != "Diamond II"@,
        "Bronze III"@ != "Diamond III"@,
        "Bronze III"@ != "Champion I"@,
        "Bronze III"@ != "Champion II"@,
        "Bronze III"@ != "Champion III"@,
        "Bronze III"@ != "Grand Champion I"@,
        "Bronze III"@ != "Grand Champion II"@,
        "Bronze III"@ != "Grand Champion III"@,
        "Bronze III"@ != "Supersonic Legend"@,
        "Silver I"@ != "Silver II"@,
        "Silver I"@ != "Silver III"@,
        "Silver I"@ != "Gold I"@,
        "Silver I"@ != "Gold II"@,
        "Silver I"@ != "Gold III"@,
        "Silver I"@ != "Platinum I"@,
        "Silver I"@ != "Platinum II"@,
        "Silver I"@ != "Platinum III"@,
        "Silver I"@ != "Diamond I"@,
        "Silver I"@ != "Diamond II"@,
        "Silver I"@ != "Diamond III"@,
        "Silver I"@ != "Champion I"@,
        "Silver I"@ != "Champion II"@,
        "Silver I"@ != "Champion III"@,
        "Silver I"@ != "Grand Champion I"@,
        "Silver I"@ != "Grand Champion II"@,
        "Silver I"@ != "Grand Champion III"@,
        "Silver I"@ != "Supersonic Legend"@,
        "Silver II"@ != "Silver III"@,
        "Silver II"@ != "Gold I"@,
        "Silver II"@ != "Gold II"@,
        "Silver II"@ != "Gold III"@,
        "Silver II"@ != "Platinum I"@,
        "Silver II"@ != "Platinum II"@,
        "Silver II"@ != "Platinum III"@,
        "Silver II"@ != "Diamond I"@,
        "Silver II"@ != "Diamond II"@,
        "Silver II"@ != "Diamond III"@,
        "Silver II"@ != "Champion I"@,
        "Silver II"@ != "Champion II"@,
        "Silver II"@ != "Champion III"@,
        "Silver II"@ != "Grand Champion I"@,
        "Silver II"@ != "Grand Champion II"@,
        "Silver II"@ != "Grand Champion III"@,
        "Silver II"@ != "Supersonic Legend"@,
        "Silver III"@ != "Gold I"@,
        "Silver III"@ != "Gold II"@,
        "Silver III"@ != "Gold III"@,
        "Silver III"@ != "Platinum I"@,
        "Silver III"@ != "Platinum II"@,
        "Silver III"@ != "Platinum III"@,
        "Silver III"@ != "Diamond I"@,
        "Silver III"@ != "Diamond II"@,
        "Silver III"@ != "Diamond III"@,
        "Silver III"@ != "Champion I"@,
        "Silver III"@ != "Champion II"@,
        "Silver III"@ != "Champion III"@,
        "Silver III"@ != "Grand Champion I"@,
        "Silver III"@ != "Grand Champion II"@,
        "Silver III"@ != "Grand Champion III"@,
        "Silver III"@ != "Supersonic Legend"@,
        "Gold I"@ != "Gold II"@,
        "Gold I"@ != "Gold III"@,
        "Gold I"@ != "Platinum I"@,
        "Gold I"@ != "Platinum II"@,
        "Gold I"@ != "Platinum III"@,
        "Gold I"@ != "Diamond I"@,
        "Gold I"@ != "Diamond II"@,
        "Gold I"@ != "Diamond III"@,
        "Gold I"@ != "Champion I"@,
        "Gold I"@ != "Champion II"@,
        "Gold I"@ != "Champion III"@,
        "Gold I"@ != "Grand Champion I"@,
        "Gold I"@ != "Grand Champion II"@,
        "Gold I"@ != "Grand Champion III"@,
        "Gold I"@ != "Supersonic Legend"@,
        "Gold II"@ != "Gold III"@,
        "Gold II"@ != "Platinum I"@,
        "Gold II"@ != "Platinum II"@,
        "Gold II"@ != "Platinum III"@,
        "Gold II"@ != "Diamond I"@,
        "Gold II"@ != "Diamond II"@,
        "Gold II"@ != "Diamond III"@,
        "Gold II"@ != "Champion I"@,
        "Gold II"@ != "Champion II"@,
        "Gold II"@ != "Champion III"@,
        "Gold II"@ != "Grand Champion I"@,
        "Gold II"@ != "Grand Champion II"@,
        "Gold II"@ != "Grand Champion III"@,
        "Gold II"@ != "Supersonic Legend"@,
        "Gold III"@ != "Platinum I"@,
        "Gold III"@ != "Platinum II"@,
        "Gold III"@ != "Platinum III"@,
        "Gold III"@ != "Diamond I"@,
        "Gold III"@ != "Diamond II"@,
        "Gold III"@ != "Diamond III"@,
        "Gold III"@ != "Champion I"@,
        "Gold III"@ != "Champion II"@,
        "Gold III"@ != "Champion III"@,
        "Gold III"@ != "Grand Champion I"@,
        "Gold III"@ != "Grand Champion II"@,
        "Gold III"@ != "Grand Champion III"@,
        "Gold III"@ != "Supersonic Legend"@,
        "Platinum I"@ != "Platinum II"@,
        "Platinum I"@ != "Platinum III"@,
        "Platinum I"@ != "Diamond I"@,
        "Platinum I"@ != "Diamond II"@,
        "Platinum I"@ != "Diamond III"@,
        "Platinum I"@ != "Champion I"@,
        "Platinum I"@ != "Champion II"@,
        "Platinum I"@ != "Champion III"@,
        "Platinum I"@ != "Grand Champion I"@,
        "Platinum I"@ != "Grand Champion II"@,
        "Platinum I"@ != "Grand Champion III"@,
        "Platinum I"@ != "Supersonic Legend"@,
        "Platinum II"@ != "Platinum III"@,
        "Platinum II"@ != "Diamond I"@,
        "Platinum II"@ != "Diamond II"@,
        "Platinum II"@ != "Diamond III"@,
        "Platinum II"@ != "Champion I"@,
        "Platinum II"@ != "Champion II"@,
        "Platinum II"@ != "Champion III"@,
        "Platinum II"@ != "Grand Champion I"@,
        "Platinum II"@ != "Grand Champion II"@,
        "Platinum II"@ != "Grand Champion III"@,
        "Platinum II"@ != "Supersonic Legend"@,
        "Platinum III"@ != "Diamond I"@,
        "Platinum III"@ != "Diamond II"@,
        "Platinum III"@ != "Diamond III"@,
        "Platinum III"@ != "Champion I"@,
        "Platinum III"@ != "Champion II"@,
        "Platinum III"@ != "Champion III"@,
        "Platinum III"@ != "Grand Champion I"@,
        "Platinum III"@ != "Grand Champion II"@,
        "Platinum III"@ != "Grand Champion III"@,
        "Platinum III"@ != "Supersonic Legend"@,
        "Diamond I"@ != "Diamond II"@,
        "Diamond I"@ != "Diamond III"@,
        "Diamond I"@ != "Champion I"@,
        "Diamond I"@ != "Champion II"@,
        "Diamond I"@ != "Champion III"@,
        "Diamond I"@ != "Grand Champion I"@,
        "Diamond I"@ != "Grand Champion II"@,
        "Diamond I"@ != "Grand Champion III"@,
        "Diamond I"@ != "Supersonic Legend"@,
        "Diamond II"@ != "Diamond III"@,
        "Diamond II"@ != "Champion I"@,
        "Diamond II"@ != "Champion II"@,
        "Diamond II"@ != "Champion III"@,
        "Diamond II"@ != "Grand Champion I"@,
        "Diamond II"@ != "Grand Champion II"@,
        "Diamond II"@ != "Grand Champion III"@,
        "Diamond II"@ != "Supersonic Legend"@,
        "Diamond III"@ != "Champion I"@,
        "Diamond III"@ != "Champion II"@,
        "Diamond III"@ != "Champion III"@,
        "Diamond III"@ != "Grand Champion I"@,
        "Diamond III"@ != "Grand Champion II"@,
        "Diamond III"@ != "Grand Champion III"@,
        "Diamond III"@ != "Supersonic Legend"@,
        "Champion I"@ != "Champion II"@,
        "Champion I"@ != "Champion III"@,
        "Champion I"@ != "Grand Champion I"@,
        "Champion I"@ != "Grand Champion II"@,
        "Champion I"@ != "Grand Champion III"@,
        "Champion I"@ != "Supersonic Legend"@,
        "Champion II"@ != "Champion III"@,
        "Champion II"@ != "Grand Champion I"@,
        "Champion II"@ != "Grand Champion II"@,
        "Champion II"@ != "Grand Champion III"@,
        "Champion II"@ != "Supersonic Legend"@,
        "Champion III"@ != "Grand Champion I"@,
        "Champion III"@ != "Grand Champion II"@,
        "Champion III"@ != "Grand Champion III"@,
        "Champion III"@ != "Supersonic Legend"@,
        "Grand Champion I"@ != "Grand Champion II"@,
        "Grand Champion I"@ != "Grand Champion III"@,
        "Grand Champion I"@ != "Supersonic Legend"@,
        "Grand Champion II"@ != "Grand Champion III"@,
        "Grand Champion II"@ != "Supersonic Legend"@,
        "Grand Champion III"@ != "Supersonic Legend"@,
{
    reveal_strlit("Bronze I");
    reveal_strlit("Bronze II");
    reveal_strlit("Bronze III");
    reveal_strlit("Silver I");
    reveal_strlit("Silver II");
    reveal_strlit("Silver III");
    reveal_strlit("Gold I");
    reveal_strlit("Gold II");
    reveal_strlit("Gold III");
    reveal_strlit("Platinum I");
    reveal_strlit("Platinum II");
    reveal_strlit("Platinum III");
    reveal_strlit("Diamond I");
    reveal_strlit("Diamond II");
    reveal_strlit("Diamond III");
    reveal_strlit("Champion I");
    reveal_strlit("Champion II");
    reveal_strlit("Champion III");
    reveal_strlit("Grand Champion I");
    reveal_strlit("Grand Champion II");
    reveal_strlit("Grand Champion III");
    reveal_strlit("Supersonic Legend");
    assert("Bronze I"@.len() != "Bronze II"@.len());
    assert("Bronze I"@.len() != "Bronze III"@.len());
    assert("Bronze I"@[0] != "Silver I"@[0]);
    assert("Bronze I"@.len() != "Silver II"@.len());
    assert("Bronze I"@.len() != "Silver III"@.len());
    assert("Bronze I"@.len() != "Gold I"@.len());
    assert("Bronze I"@.len() != "Gold II"@.len());
    assert("Bronze I"@[0] != "Gold III"@[0]);
    assert("Bronze I"@.len() != "Platinum I"@.len());
    assert("Bronze I"@.len() != "Platinum II"@.len());
    assert("Bronze I"@.len() != "Platinum III"@.len());
    assert("Bronze I"@.len() != "Diamond I"@.len());
    assert("Bronze I"@.len() != "Diamond II"@.len());
    assert("Bronze I"@.len() != "Diamond III"@.len());
    assert("Bronze I"@.len() != "Champion I"@.len());
    assert("Bronze I"@.len() != "Champion II"@.len());
    assert("Bronze I"@.len() != "Champion III"@.len());
    assert("Bronze I"@.len() != "Grand Champion I"@.len());
    assert("Bronze I"@.len() != "Grand Champion II"@.len());
    assert("Bronze I"@.len() != "Grand Champion III"@.len());
    assert("Bronze I"@.len() != "Supersonic Legend"@.len());
    assert("Bronze II"@.len() != "Bronze III"@.len());
    assert("Bronze II"@.len() != "Silver I"@.len());
    assert("Bronze II"@[0] != "Silver II"@[0]);
    assert("Bronze II"@.len() != "Silver III"@.len());
    assert("Bronze II"@.len() != "Gold I"@.len());
    assert("Bronze II"@.len() != "Gold II"@.len());
    assert("Bronze II"@.len() != "Gold III"@.len());
    assert("Bronze II"@.len() != "Platinum I"@.len());
    assert("Bronze II"@.len() != "Platinum II"@.len());
    assert("Bronze II"@.len() != "Platinum III"@.len());
    assert("Bronze II"@[0] != "Diamond I"@[0]);
    assert("Bronze II"@.len() != "Diamond II"@.len());
    assert("Bronze II"@.len() != "Diamond III"@.len());
    assert("Bronze II"@.len() != "Champion I"@.len());
    assert("Bronze II"@.len() != "Champion II"@.len());
    assert("Bronze II"@.len() != "Champion III"@.len());
    assert("Bronze II"@.len() != "Grand Champion I"@.len());
    assert("Bronze II"@.len() != "Grand Champion II"@.len());
    assert("Bronze II"@.len() != "Grand Champion III"@.len());
    assert("Bronze II"@.len() != "Supersonic Legend"@.len());
    assert("Bronze III"@.len() != "Silver I"@.len());
    assert("Bronze III"@.len() != "Silver II"@.len());
    assert("Bronze III"@[0] != "Silver III"@[0]);
    assert("Bronze III"@.len() != "Gold I"@.len());
    assert("Bronze III"@.len() != "Gold II"@.len());
    assert("Bronze III"@.len() != "Gold III"@.len());
    assert("Bronze III"@[0] != "Platinum I"@[0]);
    assert("Bronze III"@.len() != "Platinum II"@.len());
    assert("Bronze III"@.len() != "Platinum III"@.len());
    assert("Bronze III"@.len() != "Diamond I"@.len());
    assert("Bronze III"@[0] != "Diamond II"@[0]);
    assert("Bronze III"@.len() != "Diamond III"@.len());
    assert("Bronze III"@[0] != "Champion I"@[0]);
    assert("Bronze III"@.len() != "Champion II"@.len());
    assert("Bronze III"@.len() != "Champion III"@.len());
    assert("Bronze III"@.len() != "Grand Champion I"@.len());
    assert("Bronze III"@.len() != "Grand Champion II"@.len());
    assert("Bronze III"@.len() != "Grand Champion III"@.len());
    assert("Bronze III"@.len() != "Supersonic Legend"@.len());
    assert("Silver I"@.len() != "Silver II"@.len());
    assert("Silver I"@.len() != "Silver III"@.len());
    assert("Silver I"@.len() != "Gold I"@.len());
    assert("Silver I"@.len() != "Gold II"@.len());
    assert("Silver I"@[0] != "Gold III"@[0]);
    assert("Silver I"@.len() != "Platinum I"@.len());
    assert("Silver I"@.len() != "Platinum II"@.len());
    assert("Silver I"@.len() != "Platinum III"@.len());
    assert("Silver I"@.len() != "Diamond I"@.len());
    assert("Silver I"@.len() != "Diamond II"@.len());
    assert("Silver I"@.len() != "Diamond III"@.len());
    assert("Silver I"@.len() != "Champion I"@.len());
    assert("Silver I"@.len() != "Champion II"@.len());
    assert("Silver I"@.len() != "Champion III"@.len());
    assert("Silver I"@.len() != "Grand Champion I"@.len());
    assert("Silver I"@.len() != "Grand Champion II"@.len());
    assert("Silver I"@.len() != "Grand Champion III"@.len());
    assert("Silver I"@.len() != "Supersonic Legend"@.len());
    assert("Silver II"@.len() != "Silver III"@.len());
    assert("Silver II"@.len() != "Gold I"@.len());
    assert("Silver II"@.len() != "Gold II"@.len());
    assert("Silver II"@.len() != "Gold III"@.len());
    assert("Silver II"@.len() != "Platinum I"@.len());
    assert("Silver II"@.len() != "Platinum II"@.len());
    assert("Silver II"@.len() != "Platinum III"@.len());
    assert("Silver II"@[0] != "Diamond I"@[0]);
    assert("Silver II"@.len() != "Diamond II"@.len());
    assert("Silver II"@.len() != "Diamond III"@.len());
    assert("Silver II"@.len() != "Champion I"@.len());
    assert("Silver II"@.len() != "Champion II"@.len());
    assert("Silver II"@.len() != "Champion III"@.len());
    assert("Silver II"@.len() != "Grand Champion I"@.len());
    assert("Silver II"@.len() != "Grand Champion II"@.len());
    assert("Silver II"@.len() != "Grand Champion III"@.len());
    assert("Silver II"@.len() != "Supersonic Legend"@.len());
    assert("Silver III"@.len() != "Gold I"@.len());
    assert("Silver III"@.len() != "Gold II"@.len());
    assert("Silver III"@.len() != "Gold III"@.len());
    assert("Silver III"@[0] != "Platinum I"@[0]);
    assert("Silver III"@.len() != "Platinum II"@.len());
    assert("Silver III"@.len() != "Platinum III"@.len());
    assert("Silver III"@.len() != "Diamond I"@.len());
    assert("Silver III"@[0] != "Diamond II"@[0]);
    assert("Silver III"@.len() != "Diamond III"@.len());
    assert("Silver III"@[0] != "Champion I"@[0]);
    assert("Silver III"@.len() != "Champion II"@.len());
    assert("Silver III"@.len() != "Champion III"@.len());
    assert("Silver III"@.len() != "Grand Champion I"@.len());
    assert("Silver III"@.len() != "Grand Champion II"@.len());
    assert("Silver III"@.len() != "Grand Champion III"@.len());
    assert("Silver III"@.len() != "Supersonic Legend"@.len());
    assert("Gold I"@.len() != "Gold II"@.len());
    assert("Gold I"@.len() != "Gold III"@.len());
    assert("Gold I"@.len() != "Platinum I"@.len());
    assert("Gold I"@.len() != "Platinum II"@.len());
    assert("Gold I"@.len() != "Platinum III"@.len());
    assert("Gold I"@.len() != "Diamond I"@.len());
    assert("Gold I"@.len() != "Diamond II"@.len());
    assert("Gold I"@.len() != "Diamond III"@.len());
    assert("Gold I"@.len() != "Champion I"@.len());
    assert("Gold I"@.len() != "Champion II"@.len());
    assert("Gold I"@.len() != "Champion III"@.len());
    assert("Gold I"@.len() != "Grand Champion I"@.len());
    assert("Gold I"@.len() != "Grand Champion II"@.len());
    assert("Gold I"@.len() != "Grand Champion III"@.len());
    assert("Gold I"@.len() != "Supersonic Legend"@.len());
    assert("Gold II"@.len() != "Gold III"@.len());
    assert("Gold II"@.len() != "Platinum I"@.len());
    assert("Gold II"@.len() != "Platinum II"@.len());
    assert("Gold II"@.len() != "Platinum III"@.len());
    assert("Gold II"@.len() != "Diamond I"@.len());
    assert("Gold II"@.len() != "Diamond II"@.len());
    assert("Gold II"@.len() != "Diamond III"@.len());
    assert("Gold II"@.len() != "Champion I"@.len());
    assert("Gold II"@.len() != "Champion II"@.len());
    assert("Gold II"@.len() != "Champion III"@.len());
    assert("Gold II"@.len() != "Grand Champion I"@.len());
    assert("Gold II"@.len() != "Grand Champion II"@.len());
    assert("Gold II"@.len() != "Grand Champion III"@.len());
    assert("Gold II"@.len() != "Supersonic Legend"@.len());
    assert("Gold III"@.len() != "Platinum I"@.len());
    assert("Gold III"@.len() != "Platinum II"@.len());
    assert("Gold III"@.len() != "Platinum III"@.len());
    assert("Gold III"@.len() != "Diamond I"@.len());
    assert("Gold III"@.len() != "Diamond II"@.len());
    assert("Gold III"@.len() != "Diamond III"@.len());
    assert("Gold III"@.len() != "Champion I"@.len());
    assert("Gold III"@.len() != "Champion II"@.len());
    assert("Gold III"@.len() != "Champion III"@.len());
    assert("Gold III"@.len() != "Grand Champion I"@.len());
    assert("Gold III"@.len() != "Grand Champion II"@.len());
    assert("Gold III"@.len() != "Grand Champion III"@.len());
    assert("Gold III"@.len() != "Supersonic Legend"@.len());
    assert("Platinum I"@.len() != "Platinum II"@.len());
    assert("Platinum I"@.len() != "Platinum III"@.len());
    assert("Platinum I"@.len() != "Diamond I"@.len());
    assert("Platinum I"@[0] != "Diamond II"@[0]);
    assert("Platinum I"@.len() != "Diamond III"@.len());
    assert("Platinum I"@[0] != "Champion I"@[0]);
    assert("Platinum I"@.len() != "Champion II"@.len());
    assert("Platinum I"@.len() != "Champion III"@.len());
    assert("Platinum I"@.len() != "Grand Champion I"@.len());
    assert("Platinum I"@.len() != "Grand Champion II"@.len());
    assert("Platinum I"@.len() != "Grand Champion III"@.len());
    assert("Platinum I"@.len() != "Supersonic Legend"@.len());
    assert("Platinum II"@.len() != "Platinum III"@.len());
    assert("Platinum II"@.len() != "Diamond I"@.len());
    assert("Platinum II"@.len() != "Diamond II"@.len());
    assert("Platinum II"@[0] != "Diamond III"@[0]);
    assert("Platinum II"@.len() != "Champion I"@.len());
    assert("Platinum II"@[0] != "Champion II"@[0]);
    assert("Platinum II"@.len() != "Champion III"@.len());
    assert("Platinum II"@.len() != "Grand Champion I"@.len());
    assert("Platinum II"@.len() != "Grand Champion II"@.len());
    assert("Platinum II"@.len() != "Grand Champion III"@.len());
    assert("Platinum II"@.len() != "Supersonic Legend"@.len());
    assert("Platinum III"@.len() != "Diamond I"@.len());
    assert("Platinum III"@.len() != "Diamond II"@.len());
    assert("Platinum III"@.len() != "Diamond III"@.len());
    assert("Platinum III"@.len() != "Champion I"@.len());
    assert("Platinum III"@.len() != "Champion II"@.len());
    assert("Platinum III"@[0] != "Champion III"@[0]);
    assert("Platinum III"@.len() != "Grand Champion I"@.len());
    assert("Platinum III"@.len() != "Grand Champion II"@.len());
    assert("Platinum III"@.len() != "Grand Champion III"@.len());
    assert("Platinum III"@.len() != "Supersonic Legend"@.len());
    assert("Diamond I"@.len() != "Diamond II"@.len());
    assert("Diamond I"@.len() != "Diamond III"@.len());
    assert("Diamond I"@.len() != "Champion I"@.len());
    assert("Diamond I"@.len() != "Champion II"@.len());
    assert("Diamond I"@.len() != "Champion III"@.len());
    assert("Diamond I"@.len() != "Grand Champion I"@.len());
    assert("Diamond I"@.len() != "Grand Champion II"@.len());
    assert("Diamond I"@.len() != "Grand Champion III"@.len());
    assert("Diamond I"@.len() != "Supersonic Legend"@.len());
    assert("Diamond II"@.len() != "Diamond III"@.len());
    assert("Diamond II"@[0] != "Champion I"@[0]);
    assert("Diamond II"@.len() != "Champion II"@.len());
    assert("Diamond II"@.len() != "Champion III"@.len());
    assert("Diamond II"@.len() != "Grand Champion I"@.len());
    assert("Diamond II"@.len() != "Grand Champion II"@.len());
    assert("Diamond II"@.len() != "Grand Champion III"@.len());
    assert("Diamond II"@.len() != "Supersonic Legend"@.len());
    assert("Diamond III"@.len() != "Champion I"@.len());
    assert("Diamond III"@[0] != "Champion II"@[0]);
    assert("Diamond III"@.len() != "Champion III"@.len());
    assert("Diamond III"@.len() != "Grand Champion I"@.len());
    assert("Diamond III"@.len() != "Grand Champion II"@.len());
    assert("Diamond III"@.len() != "Grand Champion III"@.len());
    assert("Diamond III"@.len() != "Supersonic Legend"@.len());
    assert("Champion I"@.len() != "Champion II"@.len());
    assert("Champion I"@.len() != "Champion III"@.len());
    assert("Champion I"@.len() != "Grand Champion I"@.len());
    assert("Champion I"@.len() != "Grand Champion II"@.len());
    assert("Champion I"@.len() != "Grand Champion III"@.len());
    assert("Champion I"@.len() != "Supersonic Legend"@.len());
    assert("Champion II"@.len() != "Champion III"@.len());
    assert("Champion II"@.len() != "Grand Champion I"@.len());
    assert("Champion II"@.len() != "Grand Champion II"@.len());
    assert("Champion II"@.len() != "Grand Champion III"@.len());
    assert("Champion II"@.len() != "Supersonic Legend"@.len());
    assert("Champion III"@.len() != "Grand Champion I"@.len());
    assert("Champion III"@.len() != "Grand Champion II"@.len());
    assert("Champion III"@.len() != "Grand Champion III"@.len());
    assert("Champion III"@.len() != "Supersonic Legend"@.len());
    assert("Grand Champion I"@.len() != "Grand Champion II"@.len());
    assert("Grand Champion I"@.len() != "Grand Champion III"@.len());
    assert("Grand Champion I"@.len() != "Supersonic Legend"@.len());
    assert("Grand Champion II"@.len() != "Grand Champion III"@.len());
    assert("Grand Champion II"@[0] != "Supersonic Legend"@[0]);
    assert("Grand Champion III"@.len() != "Supersonic Legend"@.len());
}

proof fn lemma_tier_emojis_differ()
    ensures
        "<:Bronze1:908453289945886760>"@ != "<:Bronze2:908453289996197948>"@,
        "<:Bronze1:908453289945886760>"@ != "<:Bronze3:908453289421590549>"@,
        "<:Bronze1:908453289945886760>"@ != "<:Silver1:908453289929089075>"@,
        "<:Bronze1:908453289945886760>"@ != "<:Silver2:908453289769717791>"@,
        "<:Bronze1:908453289945886760>"@ != "<:Silver3:908453289899728917>"@,
        "<:Bronze1:908453289945886760>"@ != "<:Gold1:908453289799057428>"@,
        "<:Bronze1:908453289945886760>"@ != "<:Gold2:908453289807470602>"@,
        "<:Bronze1:908453289945886760>"@ != "<:Gold3:908453289857785876>"@,
        "<:Bronze1:908453289945886760>"@ != "<:Plat1:908453289643888721>"@,
        "<:Bronze1:908453289945886760>"@ != "<:Plat2:908453289878757396>"@,
        "<:Bronze1:908453289945886760>"@ != "<:Plat3:908453289572585543>"@,
        "<:Bronze1:908453289945886760>"@ != "<:Diamond1:908453289807446037>"@,
        "<:Bronze1:908453289945886760>"@ != "<:Diamond2:908453289903939584>"@,
        "<:Bronze1:908453289945886760>"@ != "<:Diamond3:908453289836814376>"@,
        "<:Bronze1:908453289945886760>"@ != "<:Champ1:908453289820033104>"@,
        "<:Bronze1:908453289945886760>"@ != "<:Champ2:908453289857781800>"@,
        "<:Bronze1:908453289945886760>"@ != "<:Champ3:908453289945866250>"@,
        "<:Bronze1:908453289945886760>"@ != "<:GrandChamp1:908455642061238293>"@,
        "<:Bronze1:908453289945886760>"@ != "<:GrandChamp2:908455641838944276>"@,
        "<:Bronze1:908453289945886760>"@ != "<:GrandChamp3:908455642245759006>"@,
        "<:Bronze1:908453289945886760>"@ != "<:SupersonicLegend:757171265768259664>"@,
        "<:Bronze1:908453289945886760>"@ != "<:Unranked:908466188588310548>"@,
        "<:Bronze2:908453289996197948>"@ != "<:Bronze3:908453289421590549>"@,
        "<:Bronze2:908453289996197948>"@ != "<:Silver1:908453289929089075>"@,
        "<:Bronze2:908453289996197948>"@ != "<:Silver2:908453289769717791>"@,
        "<:Bronze2:908453289996197948>"@ != "<:Silver3:908453289899728917>"@,
        "<:Bronze2:908453289996197948>"@ != "<:Gold1:908453289799057428>"@,
        "<:Bronze2:908453289996197948>"@ != "<:Gold2:908453289807470602>"@,
        "<:Bronze2:908453289996197948>"@ != "<:Gold3:908453289857785876>"@,
        "<:Bronze2:908453289996197948>"@ != "<:Plat1:908453289643888721>"@,
        "<:Bronze2:908453289996197948>"@ != "<:Plat2:908453289878757396>"@,
        "<:Bronze2:908453289996197948>"@ != "<:Plat3:908453289572585543>"@,
        "<:Bronze2:908453289996197948>"@ != "<:Diamond1:908453289807446037>"@,
        "<:Bronze2:908453289996197948>"@ != "<:Diamond2:908453289903939584>"@,
        "<:Bronze2:908453289996197948>"@ != "<:Diamond3:908453289836814376>"@,
        "<:Bronze2:908453289996197948>"@ != "<:Champ1:908453289820033104>"@,
        "<:Bronze2:908453289996197948>"@ != "<:Champ2:908453289857781800>"@,
        "<:Bronze2:908453289996197948>"@ != "<:Champ3:908453289945866250>"@,
        "<:Bronze2:908453289996197948>"@ != "<:GrandChamp1:908455642061238293>"@,
        "<:Bronze2:908453289996197948>"@ != "<:GrandChamp2:908455641838944276>"@,
        "<:Bronze2:908453289996197948>"@ != "<:GrandChamp3:908455642245759006>"@,
        "<:Bronze2:908453289996197948>"@ != "<:SupersonicLegend:757171265768259664>"@,
        "<:Bronze2:908453289996197948>"@ != "<:Unranked:908466188588310548>"@,
        "<:Bronze3:908453289421590549>"@ != "<:Silver1:908453289929089075>"@,
        "<:Bronze3:908453289421590549>"@ != "<:Silver2:908453289769717791>"@,
        "<:Bronze3:908453289421590549>"@ != "<:Silver3:908453289899728917>"@,
        "<:Bronze3:908453289421590549>"@ != "<:Gold1:908453289799057428>"@,
        "<:Bronze3:908453289421590549>"@ != "<:Gold2:908453289807470602>"@,
        "<:Bronze3:908453289421590549>"@ != "<:Gold3:908453289857785876>"@,
        "<:Bronze3:908453289421590549>"@ != "<:Plat1:908453289643888721>"@,
        "<:Bronze3:908453289421590549>"@ != "<:Plat2:908453289878757396>"@,
        "<:Bronze3:908453289421590549>"@ != "<:Plat3:908453289572585543>"@,
        "<:Bronze3:908453289421590549>"@ != "<:Diamond1:908453289807446037>"@,
        "<:Bronze3:908453289421590549>"@ != "<:Diamond2:908453289903939584>"@,
        "<:Bronze3:908453289421590549>"@ != "<:Diamond3:908453289836814376>"@,
        "<:Bronze3:908453289421590549>"@ != "<:Champ1:908453289820033104>"@,
        "<:Bronze3:908453289421590549>"@ != "<:Champ2:908453289857781800>"@,
        "<:Bronze3:908453289421590549>"@ != "<:Champ3:908453289945866250>"@,
        "<:Bronze3:908453289421590549>"@ != "<:GrandChamp1:908455642061238293>"@,
        "<:Bronze3:908453289421590549>"@ != "<:GrandChamp2:908455641838944276>"@,
        "<:Bronze3:908453289421590549>"@ != "<:GrandChamp3:908455642245759006>"@,
        "<:Bronze3:908453289421590549>"@ != "<:SupersonicLegend:757171265768259664>"@,
        "<:Bronze3:908453289421590549>"@ != "<:Unranked:908466188588310548>"@,
        "<:Silver1:908453289929089075>"@ != "<:Silver2:908453289769717791>"@,
        "<:Silver1:908453289929089075>"@ != "<:Silver3:908453289899728917>"@,
        "<:Silver1:908453289929089075>"@ != "<:Gold1:908453289799057428>"@,
        "<:Silver1:908453289929089075>"@ != "<:Gold2:908453289807470602>"@,
        "<:Silver1:908453289929089075>"@ != "<:Gold3:908453289857785876>"@,
        "<:Silver1:908453289929089075>"@ != "<:Plat1:908453289643888721>"@,
        "<:Silver1:908453289929089075>"@ != "<:Plat2:908453289878757396>"@,
        "<:Silver1:908453289929089075>"@ != "<:Plat3:908453289572585543>"@,
        "<:Silver1:908453289929089075>"@ != "<:Diamond1:908453289807446037>"@,
        "<:Silver1:908453289929089075>"@ != "<:Diamond2:908453289903939584>"@,
        "<:Silver1:908453289929089075>"@ != "<:Diamond3:908453289836814376>"@,
        "<:Silver1:908453289929089075>"@ != "<:Champ1:908453289820033104>"@,
        "<:Silver1:908453289929089075>"@ != "<:Champ2:908453289857781800>"@,
        "<:Silver1:908453289929089075>"@ != "<:Champ3:908453289945866250>"@,
        "<:Silver1:908453289929089075>"@ != "<:GrandChamp1:908455642061238293>"@,
        "<:Silver1:908453289929089075>"@ != "<:GrandChamp2:908455641838944276>"@,
        "<:Silver1:908453289929089075>"@ != "<:GrandChamp3:908455642245759006>"@,
        "<:Silver1:908453289929089075>"@ != "<:SupersonicLegend:757171265768259664>"@,
        "<:Silver1:908453289929089075>"@ != "<:Unranked:908466188588310548>"@,
        "<:Silver2:908453289769717791>"@ != "<:Silver3:908453289899728917>"@,
        "<:Silver2:908453289769717791>"@ != "<:Gold1:908453289799057428>"@,
        "<:Silver2:908453289769717791>"@ != "<:Gold2:908453289807470602>"@,
        "<:Silver2:908453289769717791>"@ != "<:Gold3:908453289857785876>"@,
        "<:Silver2:908453289769717791>"@ != "<:Plat1:908453289643888721>"@,
        "<:Silver2:908453289769717791>"@ != "<:Plat2:908453289878757396>"@,
        "<:Silver2:908453289769717791>"@ != "<:Plat3:908453289572585543>"@,
        "<:Silver2:908453289769717791>"@ != "<:Diamond1:908453289807446037>"@,
        "<:Silver2:908453289769717791>"@ != "<:Diamond2:908453289903939584>"@,
        "<:Silver2:908453289769717791>"@ != "<:Diamond3:908453289836814376>"@,
        "<:Silver2:908453289769717791>"@ != "<:Champ1:908453289820033104>"@,
        "<:Silver2:908453289769717791>"@ != "<:Champ2:908453289857781800>"@,
        "<:Silver2:908453289769717791>"@ != "<:Champ3:908453289945866250>"@,
        "<:Silver2:908453289769717791>"@ != "<:GrandChamp1:908455642061238293>"@,
        "<:Silver2:908453289769717791>"@ != "<:GrandChamp2:908455641838944276>"@,
        "<:Silver2:908453289769717791>"@ != "<:GrandChamp3:908455642245759006>"@,
        "<:Silver2:908453289769717791>"@ != "<:SupersonicLegend:757171265768259664>"@,
        "<:Silver2:908453289769717791>"@ != "<:Unranked:908466188588310548>"@,
        "<:Silver3:908453289899728917>"@ != "<:Gold1:908453289799057428>"@,
        "<:Silver3:908453289899728917>"@ != "<:Gold2:908453289807470602>"@,
        "<:Silver3:908453289899728917>"@ != "<:Gold3:908453289857785876>"@,
        "<:Silver3:908453289899728917>"@ != "<:Plat1:908453289643888721>"@,
        "<:Silver3:908453289899728917>"@ != "<:Plat2:908453289878757396>"@,
        "<:Silver3:908453289899728917>"@ != "<:Plat3:908453289572585543>"@,
        "<:Silver3:908453289899728917>"@ != "<:Diamond1:908453289807446037>"@,
        "<:Silver3:908453289899728917>"@ != "<:Diamond2:908453289903939584>"@,
        "<:Silver3:908453289899728917>"@ != "<:Diamond3:908453289836814376>"@,
        "<:Silver3:908453289899728917>"@ != "<:Champ1:908453289820033104>"@,
        "<:Silver3:908453289899728917>"@ != "<:Champ2:908453289857781800>"@,
        "<:Silver3:908453289899728917>"@ != "<:Champ3:908453289945866250>"@,
        "<:Silver3:908453289899728917>"@ != "<:GrandChamp1:908455642061238293>"@,
        "<:Silver3:908453289899728917>"@ != "<:GrandChamp2:908455641838944276>"@,
        "<:Silver3:908453289899728917>"@ != "<:GrandChamp3:908455642245759006>"@,
        "<:Silver3:908453289899728917>"@ != "<:SupersonicLegend:757171265768259664>"@,
        "<:Silver3:908453289899728917>"@ != "<:Unranked:908466188588310548>"@,
        "<:Gold1:908453289799057428>"@ != "<:Gold2:908453289807470602>"@,
        "<:Gold1:908453289799057428>"@ != "<:Gold3:908453289857785876>"@,
        "<:Gold1:908453289799057428>"@ != "<:Plat1:908453289643888721>"@,
        "<:Gold1:908453289799057428>"@ != "<:Plat2:908453289878757396>"@,
        "<:Gold1:908453289799057428>"@ != "<:Plat3:908453289572585543>"@,
        "<:Gold1:908453289799057428>"@ != "<:Diamond1:908453289807446037>"@,
        "<:Gold1:908453289799057428>"@ != "<:Diamond2:908453289903939584>"@,
        "<:Gold1:908453289799057428>"@ != "<:Diamond3:908453289836814376>"@,
        "<:Gold1:908453289799057428>"@ != "<:Champ1:908453289820033104>"@,
        "<:Gold1:908453289799057428>"@ != "<:Champ2:908453289857781800>"@,
        "<:Gold1:908453289799057428>"@ != "<:Champ3:908453289945866250>"@,
        "<:Gold1:908453289799057428>"@ != "<:GrandChamp1:908455642061238293>"@,
        "<:Gold1:908453289799057428>"@ != "<:GrandChamp2:908455641838944276>"@,
        "<:Gold1:908453289799057428>"@ != "<:GrandChamp3:908455642245759006>"@,
        "<:Gold1:908453289799057428>"@ != "<:SupersonicLegend:757171265768259664>"@,
        "<:Gold1:908453289799057428>"@ != "<:Unranked:908466188588310548>"@,
        "<:Gold2:908453289807470602>"@ != "<:Gold3:908453289857785876>"@,
        "<:Gold2:908453289807470602>"@ != "<:Plat1:908453289643888721>"@,
        "<:Gold2:908453289807470602>"@ != "<:Plat2:908453289878757396>"@,
        "<:Gold2:908453289807470602>"@ != "<:Plat3:908453289572585543>"@,
        "<:Gold2:908453289807470602>"@ != "<:Diamond1:908453289807446037>"@,
        "<:Gold2:908453289807470602>"@ != "<:Diamond2:908453289903939584>"@,
        "<:Gold2:908453289807470602>"@ != "<:Diamond3:908453289836814376>"@,
        "<:Gold2:908453289807470602>"@ != "<:Champ1:908453289820033104>"@,
        "<:Gold2:908453289807470602>"@ != "<:Champ2:908453289857781800>"@,
        "<:Gold2:908453289807470602>"@ != "<:Champ3:908453289945866250>"@,
        "<:Gold2:908453289807470602>"@ != "<:GrandChamp1:908455642061238293>"@,
        "<:Gold2:908453289807470602>"@ != "<:GrandChamp2:908455641838944276>"@,
        "<:Gold2:908453289807470602>"@ != "<:GrandChamp3:908455642245759006>"@,
        "<:Gold2:908453289807470602>"@ != "<:SupersonicLegend:757171265768259664>"@,
        "<:Gold2:908453289807470602>"@ != "<:Unranked:908466188588310548>"@,
        "<:Gold3:908453289857785876>"@ != "<:Plat1:908453289643888721>"@,
        "<:Gold3:908453289857785876>"@ != "<:Plat2:908453289878757396>"@,
        "<:Gold3:908453289857785876>"@ != "<:Plat3:908453289572585543>"@,
        "<:Gold3:908453289857785876>"@ != "<:Diamond1:908453289807446037>"@,
        "<:Gold3:908453289857785876>"@ != "<:Diamond2:908453289903939584>"@,
        "<:Gold3:908453289857785876>"@ != "<:Diamond3:908453289836814376>"@,
        "<:Gold3:908453289857785876>"@ != "<:Champ1:908453289820033104>"@,
        "<:Gold3:908453289857785876>"@ != "<:Champ2:908453289857781800>"@,
        "<:Gold3:908453289857785876>"@ != "<:Champ3:908453289945866250>"@,
        "<:Gold3:908453289857785876>"@ != "<:GrandChamp1:908455642061238293>"@,
        "<:Gold3:908453289857785876>"@ != "<:GrandChamp2:908455641838944276>"@,
        "<:Gold3:908453289857785876>"@ != "<:GrandChamp3:908455642245759006>"@,
        "<:Gold3:908453289857785876>"@ != "<:SupersonicLegend:757171265768259664>"@,
        "<:Gold3:908453289857785876>"@ != "<:Unranked:908466188588310548>"@,
        "<:Plat1:908453289643888721>"@ != "<:Plat2:908453289878757396>"@,
        "<:Plat1:908453289643888721>"@ != "<:Plat3:908453289572585543>"@,
        "<:Plat1:908453289643888721>"@ != "<:Diamond1:908453289807446037>"@,
        "<:Plat1:908453289643888721>"@ != "<:Diamond2:908453289903939584>"@,
        "<:Plat1:908453289643888721>"@ != "<:Diamond3:908453289836814376>"@,
        "<:Plat1:908453289643888721>"@ != "<:Champ1:908453289820033104>"@,
        "<:Plat1:908453289643888721>"@ != "<:Champ2:908453289857781800>"@,
        "<:Plat1:908453289643888721>"@ != "<:Champ3:908453289945866250>"@,
        "<:Plat1:908453289643888721>"@ != "<:GrandChamp1:908455642061238293>"@,
        "<:Plat1:908453289643888721>"@ != "<:GrandChamp2:908455641838944276>"@,
        "<:Plat1:908453289643888721>"@ != "<:GrandChamp3:908455642245759006>"@,
        "<:Plat1:908453289643888721>"@ != "<:SupersonicLegend:757171265768259664>"@,
        "<:Plat1:908453289643888721>"@ != "<:Unranked:908466188588310548>"@,
        "<:Plat2:908453289878757396>"@ != "<:Plat3:908453289572585543>"@,
        "<:Plat2:908453289878757396>"@ != "<:Diamond1:908453289807446037>"@,
        "<:Plat2:908453289878757396>"@ != "<:Diamond2:908453289903939584>"@,
        "<:Plat2:908453289878757396>"@ != "<:Diamond3:908453289836814376>"@,
        "<:Plat2:908453289878757396>"@ != "<:Champ1:908453289820033104>"@,
        "<:Plat2:908453289878757396>"@ != "<:Champ2:908453289857781800>"@,
        "<:Plat2:908453289878757396>"@ != "<:Champ3:908453289945866250>"@,
        "<:Plat2:908453289878757396>"@ != "<:GrandChamp1:908455642061238293>"@,
        "<:Plat2:908453289878757396>"@ != "<:GrandChamp2:908455641838944276>"@,
        "<:Plat2:908453289878757396>"@ != "<:GrandChamp3:908455642245759006>"@,
        "<:Plat2:908453289878757396>"@ != "<:SupersonicLegend:757171265768259664>"@,
        "<:Plat2:908453289878757396>"@ != "<:Unranked:908466188588310548>"@,
        "<:Plat3:908453289572585543>"@ != "<:Diamond1:908453289807446037>"@,
        "<:Plat3:908453289572585543>"@ != "<:Diamond2:908453289903939584>"@,
        "<:Plat3:908453289572585543>"@ != "<:Diamond3:908453289836814376>"@,
        "<:Plat3:908453289572585543>"@ != "<:Champ1:908453289820033104>"@,
        "<:Plat3:908453289572585543>"@ != "<:Champ2:908453289857781800>"@,
        "<:Plat3:908453289572585543>"@ != "<:Champ3:908453289945866250>"@,
        "<:Plat3:908453289572585543>"@ != "<:GrandChamp1:908455642061238293>"@,
        "<:Plat3:908453289572585543>"@ != "<:GrandChamp2:908455641838944276>"@,
        "<:Plat3:908453289572585543>"@ != "<:GrandChamp3:908455642245759006>"@,
        "<:Plat3:908453289572585543>"@ != "<:SupersonicLegend:757171265768259664>"@,
        "<:Plat3:908453289572585543>"@ != "<:Unranked:908466188588310548>"@,
        "<:Diamond1:908453289807446037>"@ != "<:Diamond2:908453289903939584>"@,
        "<:Diamond1:908453289807446037>"@ != "<:Diamond3:908453289836814376>"@,
        "<:Diamond1:908453289807446037>"@ != "<:Champ1:908453289820033104>"@,
        "<:Diamond1:908453289807446037>"@ != "<:Champ2:908453289857781800>"@,
        "<:Diamond1:908453289807446037>"@ != "<:Champ3:908453289945866250>"@,
        "<:Diamond1:908453289807446037>"@ != "<:GrandChamp1:908455642061238293>"@,
        "<:Diamond1:908453289807446037>"@ != "<:GrandChamp2:908455641838944276>"@,
        "<:Diamond1:908453289807446037>"@ != "<:GrandChamp3:908455642245759006>"@,
        "<:Diamond1:908453289807446037>"@ != "<:SupersonicLegend:757171265768259664>"@,
        "<:Diamond1:908453289807446037>"@ != "<:Unranked:908466188588310548>"@,
        "<:Diamond2:908453289903939584>"@ != "<:Diamond3:908453289836814376>"@,
        "<:Diamond2:908453289903939584>"@ != "<:Champ1:908453289820033104>"@,
        "<:Diamond2:908453289903939584>"@ != "<:Champ2:908453289857781800>"@,
        "<:Diamond2:908453289903939584>"@ != "<:Champ3:908453289945866250>"@,
        "<:Diamond2:908453289903939584>"@ != "<:GrandChamp1:908455642061238293>"@,
        "<:Diamond2:908453289903939584>"@ != "<:GrandChamp2:908455641838944276>"@,
        "<:Diamond2:908453289903939584>"@ != "<:GrandChamp3:908455642245759006>"@,
        "<:Diamond2:908453289903939584>"@ != "<:SupersonicLegend:757171265768259664>"@,
        "<:Diamond2:908453289903939584>"@ != "<:Unranked:908466188588310548>"@,
        "<:Diamond3:908453289836814376>"@ != "<:Champ1:908453289820033104>"@,
        "<:Diamond3:908453289836814376>"@ != "<:Champ2:908453289857781800>"@,
        "<:Diamond3:908453289836814376>"@ != "<:Champ3:908453289945866250>"@,
        "<:Diamond3:908453289836814376>"@ != "<:GrandChamp1:908455642061238293>"@,
        "<:Diamond3:908453289836814376>"@ != "<:GrandChamp2:908455641838944276>"@,
        "<:Diamond3:908453289836814376>"@ != "<:GrandChamp3:908455642245759006>"@,
        "<:Diamond3:908453289836814376>"@ != "<:SupersonicLegend:757171265768259664>"@,
        "<:Diamond3:908453289836814376>"@ != "<:Unranked:908466188588310548>"@,
        "<:Champ1:908453289820033104>"@ != "<:Champ2:908453289857781800>"@,
        "<:Champ1:908453289820033104>"@ != "<:Champ3:908453289945866250>"@,
        "<:Champ1:908453289820033104>"@ != "<:GrandChamp1:908455642061238293>"@,
        "<:Champ1:908453289820033104>"@ != "<:GrandChamp2:908455641838944276>"@,
        "<:Champ1:908453289820033104>"@ != "<:GrandChamp3:908455642245759006>"@,
        "<:Champ1:908453289820033104>"@ != "<:SupersonicLegend:757171265768259664>"@,
        "<:Champ1:908453289820033104>"@ != "<:Unranked:908466188588310548>"@,
        "<:Champ2:908453289857781800>"@ != "<:Champ3:908453289945866250>"@,
        "<:Champ2:908453289857781800>"@ != "<:GrandChamp1:908455642061238293>"@,
        "<:Champ2:908453289857781800>"@ != "<:GrandChamp2:908455641838944276>"@,
        "<:Champ2:908453289857781800>"@ != "<:GrandChamp3:908455642245759006>"@,
        "<:Champ2:908453289857781800>"@ != "<:SupersonicLegend:757171265768259664>"@,
        "<:Champ2:908453289857781800>"@ != "<:Unranked:908466188588310548>"@,
        "<:Champ3:908453289945866250>"@ != "<:GrandChamp1:908455642061238293>"@,
        "<:Champ3:908453289945866250>"@ != "<:GrandChamp2:908455641838944276>"@,
        "<:Champ3:908453289945866250>"@ != "<:GrandChamp3:908455642245759006>"@,
        "<:Champ3:908453289945866250>"@ != "<:SupersonicLegend:757171265768259664>"@,
        "<:Champ3:908453289945866250>"@ != "<:Unranked:908466188588310548>"@,
        "<:GrandChamp1:908455642061238293>"@ != "<:GrandChamp2:908455641838944276>"@,
        "<:GrandChamp1:908455642061238293>"@ != "<:GrandChamp3:908455642245759006>"@,
        "<:GrandChamp1:908455642061238293>"@ != "<:SupersonicLegend:757171265768259664>"@,
        "<:GrandChamp1:908455642061238293>"@ != "<:Unranked:908466188588310548>"@,
        "<:GrandChamp2:908455641838944276>"@ != "<:GrandChamp3:908455642245759006>"@,
        "<:GrandChamp2:908455641838944276>"@ != "<:SupersonicLegend:757171265768259664>"@,
        "<:GrandChamp2:908455641838944276>"@ != "<:Unranked:908466188588310548>"@,
        "<:GrandChamp3:908455642245759006>"@ != "<:SupersonicLegend:757171265768259664>"@,
        "<:GrandChamp3:908455642245759006>"@ != "<:Unranked:908466188588310548>"@,
        "<:SupersonicLegend:757171265768259664>"@ != "<:Unranked:908466188588310548>"@,
{
    reveal_strlit("<:Bronze1:908453289945886760>");
    reveal_strlit("<:Bronze2:908453289996197948>");
    reveal_strlit("<:Bronze3:908453289421590549>");
    reveal_strlit("<:Silver1:908453289929089075>");
    reveal_strlit("<:Silver2:908453289769717791>");
    reveal_strlit("<:Silver3:908453289899728917>");
    reveal_strlit("<:Gold1:908453289799057428>");
    reveal_strlit("<:Gold2:908453289807470602>");
    reveal_strlit("<:Gold3:908453289857785876>");
    reveal_strlit("<:Plat1:908453289643888721>");
    reveal_strlit("<:Plat2:908453289878757396>");
    reveal_strlit("<:Plat3:908453289572585543>");
    reveal_strlit("<:Diamond1:908453289807446037>");
    reveal_strlit("<:Diamond2:908453289903939584>");
    reveal_strlit("<:Diamond3:908453289836814376>");
    reveal_strlit("<:Champ1:908453289820033104>");
    reveal_strlit("<:Champ2:908453289857781800>");
    reveal_strlit("<:Champ3:908453289945866250>");
    reveal_strlit("<:GrandChamp1:908455642061238293>");
    reveal_strlit("<:GrandChamp2:908455641838944276>");
    reveal_strlit("<:GrandChamp3:908455642245759006>");
    reveal_strlit("<:SupersonicLegend:757171265768259664>");
    reveal_strlit("<:Unranked:908466188588310548>");
    assert("<:Bronze1:908453289945886760>"@[8] != "<:Bronze2:908453289996197948>"@[8]);
    assert("<:Bronze1:908453289945886760>"@[8] != "<:Bronze3:908453289421590549>"@[8]);
    assert("<:Bronze1:908453289945886760>"@[2] != "<:Silver1:908453289929089075>"@[2]);
    assert("<:Bronze1:908453289945886760>"@[2] != "<:Silver2:908453289769717791>"@[2]);
    assert("<:Bronze1:908453289945886760>"@[2] != "<:Silver3:908453289899728917>"@[2]);
    assert("<:Bronze1:908453289945886760>"@.len() != "<:Gold1:908453289799057428>"@.len());
    assert("<:Bronze1:908453289945886760>"@.len() != "<:Gold2:908453289807470602>"@.len());
    assert("<:Bronze1:908453289945886760>"@.len() != "<:Gold3:908453289857785876>"@.len());
    assert("<:Bronze1:908453289945886760>"@.len() != "<:Plat1:908453289643888721>"@.len());
    assert("<:Bronze1:908453289945886760>"@.len() != "<:Plat2:908453289878757396>"@.len());
    assert("<:Bronze1:908453289945886760>"@.len() != "<:Plat3:908453289572585543>"@.len());
    assert("<:Bronze1:908453289945886760>"@.len() != "<:Diamond1:908453289807446037>"@.len());
    assert("<:Bronze1:908453289945886760>"@.len() != "<:Diamond2:908453289903939584>"@.len());
    assert("<:Bronze1:908453289945886760>"@.len() != "<:Diamond3:908453289836814376>"@.len());
    assert("<:Bronze1:908453289945886760>"@.len() != "<:Champ1:908453289820033104>"@.len());
    assert("<:Bronze1:908453289945886760>"@.len() != "<:Champ2:908453289857781800>"@.len());
    assert("<:Bronze1:908453289945886760>"@.len() != "<:Champ3:908453289945866250>"@.len());
    assert("<:Bronze1:908453289945886760>"@.len() != "<:GrandChamp1:908455642061238293>"@.len());
    assert("<:Bronze1:908453289945886760>"@.len() != "<:GrandChamp2:908455641838944276>"@.len());
    assert("<:Bronze1:908453289945886760>"@.len() != "<:GrandChamp3:908455642245759006>"@.len());
    assert("<:Bronze1:908453289945886760>"@.len() != "<:SupersonicLegend:757171265768259664>"@.len());
    assert("<:Bronze1:908453289945886760>"@.len() != "<:Unranked:908466188588310548>"@.len());
    assert("<:Bronze2:908453289996197948>"@[8] != "<:Bronze3:908453289421590549>"@[8]);
    assert("<:Bronze2:908453289996197948>"@[2] != "<:Silver1:908453289929089075>"@[2]);
    assert("<:Bronze2:908453289996197948>"@[2] != "<:Silver2:908453289769717791>"@[2]);
    assert("<:Bronze2:908453289996197948>"@[2] != "<:Silver3:908453289899728917>"@[2]);
    assert("<:Bronze2:908453289996197948>"@.len() != "<:Gold1:908453289799057428>"@.len());
    assert("<:Bronze2:908453289996197948>"@.len() != "<:Gold2:908453289807470602>"@.len());
    assert("<:Bronze2:908453289996197948>"@.len() != "<:Gold3:908453289857785876>"@.len());
    assert("<:Bronze2:908453289996197948>"@.len() != "<:Plat1:908453289643888721>"@.len());
    assert("<:Bronze2:908453289996197948>"@.len() != "<:Plat2:908453289878757396>"@.len());
    assert("<:Bronze2:908453289996197948>"@.len() != "<:Plat3:908453289572585543>"@.len());
    assert("<:Bronze2:908453289996197948>"@.len() != "<:Diamond1:908453289807446037>"@.len());
    assert("<:Bronze2:908453289996197948>"@.len() != "<:Diamond2:908453289903939584>"@.len());
    assert("<:Bronze2:908453289996197948>"@.len() != "<:Diamond3:908453289836814376>"@.len());
    assert("<:Bronze2:908453289996197948>"@.len() != "<:Champ1:908453289820033104>"@.len());
    assert("<:Bronze2:908453289996197948>"@.len() != "<:Champ2:908453289857781800>"@.len());
    assert("<:Bronze2:908453289996197948>"@.len() != "<:Champ3:908453289945866250>"@.len());
    assert("<:Bronze2:908453289996197948>"@.len() != "<:GrandChamp1:908455642061238293>"@.len());
    assert("<:Bronze2:908453289996197948>"@.len() != "<:GrandChamp2:908455641838944276>"@.len());
    assert("<:Bronze2:908453289996197948>"@.len() != "<:GrandChamp3:908455642245759006>"@.len());
    assert("<:Bronze2:908453289996197948>"@.len() != "<:SupersonicLegend:757171265768259664>"@.len());
    assert("<:Bronze2:908453289996197948>"@.len() != "<:Unranked:908466188588310548>"@.len());
    assert("<:Bronze3:908453289421590549>"@[2] != "<:Silver1:908453289929089075>"@[2]);
    assert("<:Bronze3:908453289421590549>"@[2] != "<:Silver2:908453289769717791>"@[2]);
    assert("<:Bronze3:908453289421590549>"@[2] != "<:Silver3:908453289899728917>"@[2]);
    assert("<:Bronze3:908453289421590549>"@.len() != "<:Gold1:908453289799057428>"@.len());
    assert("<:Bronze3:908453289421590549>"@.len() != "<:Gold2:908453289807470602>"@.len());
    assert("<:Bronze3:908453289421590549>"@.len() != "<:Gold3:908453289857785876>"@.len());
    assert("<:Bronze3:908453289421590549>"@.len() != "<:Plat1:908453289643888721>"@.len());
    assert("<:Bronze3:908453289421590549>"@.len() != "<:Plat2:908453289878757396>"@.len());
    assert("<:Bronze3:908453289421590549>"@.len() != "<:Plat3:908453289572585543>"@.len());
    assert("<:Bronze3:908453289421590549>"@.len() != "<:Diamond1:908453289807446037>"@.len());
    assert("<:Bronze3:908453289421590549>"@.len() != "<:Diamond2:908453289903939584>"@.len());
    assert("<:Bronze3:908453289421590549>"@.len() != "<:Diamond3:908453289836814376>"@.len());
    assert("<:Bronze3:908453289421590549>"@.len() != "<:Champ1:908453289820033104>"@.len());
    assert("<:Bronze3:908453289421590549>"@.len() != "<:Champ2:908453289857781800>"@.len());
    assert("<:Bronze3:908453289421590549>"@.len() != "<:Champ3:908453289945866250>"@.len());
    assert("<:Bronze3:908453289421590549>"@.len() != "<:GrandChamp1:908455642061238293>"@.len());
    assert("<:Bronze3:908453289421590549>"@.len() != "<:GrandChamp2:908455641838944276>"@.len());
    assert("<:Bronze3:908453289421590549>"@.len() != "<:GrandChamp3:908455642245759006>"@.len());
    assert("<:Bronze3:908453289421590549>"@.len() != "<:SupersonicLegend:757171265768259664>"@.len());
    assert("<:Bronze3:908453289421590549>"@.len() != "<:Unranked:908466188588310548>"@.len());
    assert("<:Silver1:908453289929089075>"@[8] != "<:Silver2:908453289769717791>"@[8]);
    assert("<:Silver1:908453289929089075>"@[8] != "<:Silver3:908453289899728917>"@[8]);
    assert("<:Silver1:908453289929089075>"@.len() != "<:Gold1:908453289799057428>"@.len());
    assert("<:Silver1:908453289929089075>"@.len() != "<:Gold2:908453289807470602>"@.len());
    assert("<:Silver1:908453289929089075>"@.len() != "<:Gold3:908453289857785876>"@.len());
    assert("<:Silver1:908453289929089075>"@.len() != "<:Plat1:908453289643888721>"@.len());
    assert("<:Silver1:908453289929089075>"@.len() != "<:Plat2:908453289878757396>"@.len());
    assert("<:Silver1:908453289929089075>"@.len() != "<:Plat3:908453289572585543>"@.len());
    assert("<:Silver1:908453289929089075>"@.len() != "<:Diamond1:908453289807446037>"@.len());
    assert("<:Silver1:908453289929089075>"@.len() != "<:Diamond2:908453289903939584>"@.len());
    assert("<:Silver1:908453289929089075>"@.len() != "<:Diamond3:908453289836814376>"@.len());
    assert("<:Silver1:908453289929089075>"@.len() != "<:Champ1:908453289820033104>"@.len());
    assert("<:Silver1:908453289929089075>"@.len() != "<:Champ2:908453289857781800>"@.len());
    assert("<:Silver1:908453289929089075>"@.len() != "<:Champ3:908453289945866250>"@.len());
    assert("<:Silver1:908453289929089075>"@.len() != "<:GrandChamp1:908455642061238293>"@.len());
    assert("<:Silver1:908453289929089075>"@.len() != "<:GrandChamp2:908455641838944276>"@.len());
    assert("<:Silver1:908453289929089075>"@.len() != "<:GrandChamp3:908455642245759006>"@.len());
    assert("<:Silver1:908453289929089075>"@.len() != "<:SupersonicLegend:757171265768259664>"@.len());
    assert("<:Silver1:908453289929089075>"@.len() != "<:Unranked:908466188588310548>"@.len());
    assert("<:Silver2:908453289769717791>"@[8] != "<:Silver3:908453289899728917>"@[8]);
    assert("<:Silver2:908453289769717791>"@.len() != "<:Gold1:908453289799057428>"@.len());
    assert("<:Silver2:908453289769717791>"@.len() != "<:Gold2:908453289807470602>"@.len());
    assert("<:Silver2:908453289769717791>"@.len() != "<:Gold3:908453289857785876>"@.len());
    assert("<:Silver2:908453289769717791>"@.len() != "<:Plat1:908453289643888721>"@.len());
    assert("<:Silver2:908453289769717791>"@.len() != "<:Plat2:908453289878757396>"@.len());
    assert("<:Silver2:908453289769717791>"@.len() != "<:Plat3:908453289572585543>"@.len());
    assert("<:Silver2:908453289769717791>"@.len() != "<:Diamond1:908453289807446037>"@.len());
    assert("<:Silver2:908453289769717791>"@.len() != "<:Diamond2:908453289903939584>"@.len());
    assert("<:Silver2:908453289769717791>"@.len() != "<:Diamond3:908453289836814376>"@.len());
    assert("<:Silver2:908453289769717791>"@.len() != "<:Champ1:908453289820033104>"@.len());
    assert("<:Silver2:908453289769717791>"@.len() != "<:Champ2:908453289857781800>"@.len());
    assert("<:Silver2:908453289769717791>"@.len() != "<:Champ3:908453289945866250>"@.len());
    assert("<:Silver2:908453289769717791>"@.len() != "<:GrandChamp1:908455642061238293>"@.len());
    assert("<:Silver2:908453289769717791>"@.len() != "<:GrandChamp2:908455641838944276>"@.len());
    assert("<:Silver2:908453289769717791>"@.len() != "<:GrandChamp3:908455642245759006>"@.len());
    assert("<:Silver2:908453289769717791>"@.len() != "<:SupersonicLegend:757171265768259664>"@.len());
    assert("<:Silver2:908453289769717791>"@.len() != "<:Unranked:908466188588310548>"@.len());
    assert("<:Silver3:908453289899728917>"@.len() != "<:Gold1:908453289799057428>"@.len());
    assert("<:Silver3:908453289899728917>"@.len() != "<:Gold2:908453289807470602>"@.len());
    assert("<:Silver3:908453289899728917>"@.len() != "<:Gold3:908453289857785876>"@.len());
    assert("<:Silver3:908453289899728917>"@.len() != "<:Plat1:908453289643888721>"@.len());
    assert("<:Silver3:908453289899728917>"@.len() != "<:Plat2:908453289878757396>"@.len());
    assert("<:Silver3:908453289899728917>"@.len() != "<:Plat3:908453289572585543>"@.len());
    assert("<:Silver3:908453289899728917>"@.len() != "<:Diamond1:908453289807446037>"@.len());
    assert("<:Silver3:908453289899728917>"@.len() != "<:Diamond2:908453289903939584>"@.len());
    assert("<:Silver3:908453289899728917>"@.len() != "<:Diamond3:908453289836814376>"@.len());
    assert("<:Silver3:908453289899728917>"@.len() != "<:Champ1:908453289820033104>"@.len());
    assert("<:Silver3:908453289899728917>"@.len() != "<:Champ2:908453289857781800>"@.len());
    assert("<:Silver3:908453289899728917>"@.len() != "<:Champ3:908453289945866250>"@.len());
    assert("<:Silver3:908453289899728917>"@.len() != "<:GrandChamp1:908455642061238293>"@.len());
    assert("<:Silver3:908453289899728917>"@.len() != "<:GrandChamp2:908455641838944276>"@.len());
    assert("<:Silver3:908453289899728917>"@.len() != "<:GrandChamp3:908455642245759006>"@.len());
    assert("<:Silver3:908453289899728917>"@.len() != "<:SupersonicLegend:757171265768259664>"@.len());
    assert("<:Silver3:908453289899728917>"@.len() != "<:Unranked:908466188588310548>"@.len());
    assert("<:Gold1:908453289799057428>"@[6] != "<:Gold2:908453289807470602>"@[6]);
    assert("<:Gold1:908453289799057428>"@[6] != "<:Gold3:908453289857785876>"@[6]);
    assert("<:Gold1:908453289799057428>"@[2] != "<:Plat1:908453289643888721>"@[2]);
    assert("<:Gold1:908453289799057428>"@[2] != "<:Plat2:908453289878757396>"@[2]);
    assert("<:Gold1:908453289799057428>"@[2] != "<:Plat3:908453289572585543>"@[2]);
    assert("<:Gold1:908453289799057428>"@.len() != "<:Diamond1:908453289807446037>"@.len());
    assert("<:Gold1:908453289799057428>"@.len() != "<:Diamond2:908453289903939584>"@.len());
    assert("<:Gold1:908453289799057428>"@.len() != "<:Diamond3:908453289836814376>"@.len());
    assert("<:Gold1:908453289799057428>"@.len() != "<:Champ1:908453289820033104>"@.len());
    assert("<:Gold1:908453289799057428>"@.len() != "<:Champ2:908453289857781800>"@.len());
    assert("<:Gold1:908453289799057428>"@.len() != "<:Champ3:908453289945866250>"@.len());
    assert("<:Gold1:908453289799057428>"@.len() != "<:GrandChamp1:908455642061238293>"@.len());
    assert("<:Gold1:908453289799057428>"@.len() != "<:GrandChamp2:908455641838944276>"@.len());
    assert("<:Gold1:908453289799057428>"@.len() != "<:GrandChamp3:908455642245759006>"@.len());
    assert("<:Gold1:908453289799057428>"@.len() != "<:SupersonicLegend:757171265768259664>"@.len());
    assert("<:Gold1:908453289799057428>"@.len() != "<:Unranked:908466188588310548>"@.len());
    assert("<:Gold2:908453289807470602>"@[6] != "<:Gold3:908453289857785876>"@[6]);
    assert("<:Gold2:908453289807470602>"@[2] != "<:Plat1:908453289643888721>"@[2]);
    assert("<:Gold2:908453289807470602>"@[2] != "<:Plat2:908453289878757396>"@[2]);
    assert("<:Gold2:908453289807470602>"@[2] != "<:Plat3:908453289572585543>"@[2]);
    assert("<:Gold2:908453289807470602>"@.len() != "<:Diamond1:908453289807446037>"@.len());
    assert("<:Gold2:908453289807470602>"@.len() != "<:Diamond2:908453289903939584>"@.len());
    assert("<:Gold2:908453289807470602>"@.len() != "<:Diamond3:908453289836814376>"@.len());
    assert("<:Gold2:908453289807470602>"@.len() != "<:Champ1:908453289820033104>"@.len());
    assert("<:Gold2:908453289807470602>"@.len() != "<:Champ2:908453289857781800>"@.len());
    assert("<:Gold2:908453289807470602>"@.len() != "<:Champ3:908453289945866250>"@.len());
    assert("<:Gold2:908453289807470602>"@.len() != "<:GrandChamp1:908455642061238293>"@.len());
    assert("<:Gold2:908453289807470602>"@.len() != "<:GrandChamp2:908455641838944276>"@.len());
    assert("<:Gold2:908453289807470602>"@.len() != "<:GrandChamp3:908455642245759006>"@.len());
    assert("<:Gold2:908453289807470602>"@.len() != "<:SupersonicLegend:757171265768259664>"@.len());
    assert("<:Gold2:908453289807470602>"@.len() != "<:Unranked:908466188588310548>"@.len());
    assert("<:Gold3:908453289857785876>"@[2] != "<:Plat1:908453289643888721>"@[2]);
    assert("<:Gold3:908453289857785876>"@[2] != "<:Plat2:908453289878757396>"@[2]);
    assert("<:Gold3:908453289857785876>"@[2] != "<:Plat3:908453289572585543>"@[2]);
    assert("<:Gold3:908453289857785876>"@.len() != "<:Diamond1:908453289807446037>"@.len());
    assert("<:Gold3:908453289857785876>"@.len() != "<:Diamond2:908453289903939584>"@.len());
    assert("<:Gold3:908453289857785876>"@.len() != "<:Diamond3:908453289836814376>"@.len());
    assert("<:Gold3:908453289857785876>"@.len() != "<:Champ1:908453289820033104>"@.len());
    assert("<:Gold3:908453289857785876>"@.len() != "<:Champ2:908453289857781800>"@.len());
    assert("<:Gold3:908453289857785876>"@.len() != "<:Champ3:908453289945866250>"@.len());
    assert("<:Gold3:908453289857785876>"@.len() != "<:GrandChamp1:908455642061238293>"@.len());
    assert("<:Gold3:908453289857785876>"@.len() != "<:GrandChamp2:908455641838944276>"@.len());
    assert("<:Gold3:908453289857785876>"@.len() != "<:GrandChamp3:908455642245759006>"@.len());
    assert("<:Gold3:908453289857785876>"@.len() != "<:SupersonicLegend:757171265768259664>"@.len());
    assert("<:Gold3:908453289857785876>"@.len() != "<:Unranked:908466188588310548>"@.len());
    assert("<:Plat1:908453289643888721>"@[6] != "<:Plat2:908453289878757396>"@[6]);
    assert("<:Plat1:908453289643888721>"@[6] != "<:Plat3:908453289572585543>"@[6]);
    assert("<:Plat1:908453289643888721>"@.len() != "<:Diamond1:908453289807446037>"@.len());
    assert("<:Plat1:908453289643888721>"@.len() != "<:Diamond2:908453289903939584>"@.len());
    assert("<:Plat1:908453289643888721>"@.len() != "<:Diamond3:908453289836814376>"@.len());
    assert("<:Plat1:908453289643888721>"@.len() != "<:Champ1:908453289820033104>"@.len());
    assert("<:Plat1:908453289643888721>"@.len() != "<:Champ2:908453289857781800>"@.len());
    assert("<:Plat1:908453289643888721>"@.len() != "<:Champ3:908453289945866250>"@.len());
    assert("<:Plat1:908453289643888721>"@.len() != "<:GrandChamp1:908455642061238293>"@.len());
    assert("<:Plat1:908453289643888721>"@.len() != "<:GrandChamp2:908455641838944276>"@.len());
    assert("<:Plat1:908453289643888721>"@.len() != "<:GrandChamp3:908455642245759006>"@.len());
    assert("<:Plat1:908453289643888721>"@.len() != "<:SupersonicLegend:757171265768259664>"@.len());
    assert("<:Plat1:908453289643888721>"@.len() != "<:Unranked:908466188588310548>"@.len());
    assert("<:Plat2:908453289878757396>"@[6] != "<:Plat3:908453289572585543>"@[6]);
    assert("<:Plat2:908453289878757396>"@.len() != "<:Diamond1:908453289807446037>"@.len());
    assert("<:Plat2:908453289878757396>"@.len() != "<:Diamond2:908453289903939584>"@.len());
    assert("<:Plat2:908453289878757396>"@.len() != "<:Diamond3:908453289836814376>"@.len());
    assert("<:Plat2:908453289878757396>"@.len() != "<:Champ1:908453289820033104>"@.len());
    assert("<:Plat2:908453289878757396>"@.len() != "<:Champ2:908453289857781800>"@.len());
    assert("<:Plat2:908453289878757396>"@.len() != "<:Champ3:908453289945866250>"@.len());
    assert("<:Plat2:908453289878757396>"@.len() != "<:GrandChamp1:908455642061238293>"@.len());
    assert("<:Plat2:908453289878757396>"@.len() != "<:GrandChamp2:908455641838944276>"@.len());
    assert("<:Plat2:908453289878757396>"@.len() != "<:GrandChamp3:908455642245759006>"@.len());
    assert("<:Plat2:908453289878757396>"@.len() != "<:SupersonicLegend:757171265768259664>"@.len());
    assert("<:Plat2:908453289878757396>"@.len() != "<:Unranked:908466188588310548>"@.len());
    assert("<:Plat3:908453289572585543>"@.len() != "<:Diamond1:908453289807446037>"@.len());
    assert("<:Plat3:908453289572585543>"@.len() != "<:Diamond2:908453289903939584>"@.len());
    assert("<:Plat3:908453289572585543>"@.len() != "<:Diamond3:908453289836814376>"@.len());
    assert("<:Plat3:908453289572585543>"@.len() != "<:Champ1:908453289820033104>"@.len());
    assert("<:Plat3:908453289572585543>"@.len() != "<:Champ2:908453289857781800>"@.len());
    assert("<:Plat3:908453289572585543>"@.len() != "<:Champ3:908453289945866250>"@.len());
    assert("<:Plat3:908453289572585543>"@.len() != "<:GrandChamp1:908455642061238293>"@.len());
    assert("<:Plat3:908453289572585543>"@.len() != "<:GrandChamp2:908455641838944276>"@.len());
    assert("<:Plat3:908453289572585543>"@.len() != "<:GrandChamp3:908455642245759006>"@.len());
    assert("<:Plat3:908453289572585543>"@.len() != "<:SupersonicLegend:757171265768259664>"@.len());
    assert("<:Plat3:908453289572585543>"@.len() != "<:Unranked:908466188588310548>"@.len());
    assert("<:Diamond1:908453289807446037>"@[9] != "<:Diamond2:908453289903939584>"@[9]);
    assert("<:Diamond1:908453289807446037>"@[9] != "<:Diamond3:908453289836814376>"@[9]);
    assert("<:Diamond1:908453289807446037>"@.len() != "<:Champ1:908453289820033104>"@.len());
    assert("<:Diamond1:908453289807446037>"@.len() != "<:Champ2:908453289857781800>"@.len());
    assert("<:Diamond1:908453289807446037>"@.len() != "<:Champ3:908453289945866250>"@.len());
    assert("<:Diamond1:908453289807446037>"@.len() != "<:GrandChamp1:908455642061238293>"@.len());
    assert("<:Diamond1:908453289807446037>"@.len() != "<:GrandChamp2:908455641838944276>"@.len());
    assert("<:Diamond1:908453289807446037>"@.len() != "<:GrandChamp3:908455642245759006>"@.len());
    assert("<:Diamond1:908453289807446037>"@.len() != "<:SupersonicLegend:757171265768259664>"@.len());
    assert("<:Diamond1:908453289807446037>"@[2] != "<:Unranked:908466188588310548>"@[2]);
    assert("<:Diamond2:908453289903939584>"@[9] != "<:Diamond3:908453289836814376>"@[9]);
    assert("<:Diamond2:908453289903939584>"@.len() != "<:Champ1:908453289820033104>"@.len());
    assert("<:Diamond2:908453289903939584>"@.len() != "<:Champ2:908453289857781800>"@.len());
    assert("<:Diamond2:908453289903939584>"@.len() != "<:Champ3:908453289945866250>"@.len());
    assert("<:Diamond2:908453289903939584>"@.len() != "<:GrandChamp1:908455642061238293>"@.len());
    assert("<:Diamond2:908453289903939584>"@.len() != "<:GrandChamp2:908455641838944276>"@.len());
    assert("<:Diamond2:908453289903939584>"@.len() != "<:GrandChamp3:908455642245759006>"@.len());
    assert("<:Diamond2:908453289903939584>"@.len() != "<:SupersonicLegend:757171265768259664>"@.len());
    assert("<:Diamond2:908453289903939584>"@[2] != "<:Unranked:908466188588310548>"@[2]);
    assert("<:Diamond3:908453289836814376>"@.len() != "<:Champ1:908453289820033104>"@.len());
    assert("<:Diamond3:908453289836814376>"@.len() != "<:Champ2:908453289857781800>"@.len());
    assert("<:Diamond3:908453289836814376>"@.len() != "<:Champ3:908453289945866250>"@.len());
    assert("<:Diamond3:908453289836814376>"@.len() != "<:GrandChamp1:908455642061238293>"@.len());
    assert("<:Diamond3:908453289836814376>"@.len() != "<:GrandChamp2:908455641838944276>"@.len());
    assert("<:Diamond3:908453289836814376>"@.len() != "<:GrandChamp3:908455642245759006>"@.len());
    assert("<:Diamond3:908453289836814376>"@.len() != "<:SupersonicLegend:757171265768259664>"@.len());
    assert("<:Diamond3:908453289836814376>"@[2] != "<:Unranked:908466188588310548>"@[2]);
    assert("<:Champ1:908453289820033104>"@[7] != "<:Champ2:908453289857781800>"@[7]);
    assert("<:Champ1:908453289820033104>"@[7] != "<:Champ3:908453289945866250>"@[7]);
    assert("<:Champ1:908453289820033104>"@.len() != "<:GrandChamp1:908455642061238293>"@.len());
    assert("<:Champ1:908453289820033104>"@.len() != "<:GrandChamp2:908455641838944276>"@.len());
    assert("<:Champ1:908453289820033104>"@.len() != "<:GrandChamp3:908455642245759006>"@.len());
    assert("<:Champ1:908453289820033104>"@.len() != "<:SupersonicLegend:757171265768259664>"@.len());
    assert("<:Champ1:908453289820033104>"@.len() != "<:Unranked:908466188588310548>"@.len());
    assert("<:Champ2:908453289857781800>"@[7] != "<:Champ3:908453289945866250>"@[7]);
    assert("<:Champ2:908453289857781800>"@.len() != "<:GrandChamp1:908455642061238293>"@.len());
    assert("<:Champ2:908453289857781800>"@.len() != "<:GrandChamp2:908455641838944276>"@.len());
    assert("<:Champ2:908453289857781800>"@.len() != "<:GrandChamp3:908455642245759006>"@.len());
    assert("<:Champ2:908453289857781800>"@.len() != "<:SupersonicLegend:757171265768259664>"@.len());
    assert("<:Champ2:908453289857781800>"@.len() != "<:Unranked:908466188588310548>"@.len());
    assert("<:Champ3:908453289945866250>"@.len() != "<:GrandChamp1:908455642061238293>"@.len());
    assert("<:Champ3:908453289945866250>"@.len() != "<:GrandChamp2:908455641838944276>"@.len());
    assert("<:Champ3:908453289945866250>"@.len() != "<:GrandChamp3:908455642245759006>"@.len());
    assert("<:Champ3:908453289945866250>"@.len() != "<:SupersonicLegend:757171265768259664>"@.len());
    assert("<:Champ3:908453289945866250>"@.len() != "<:Unranked:908466188588310548>"@.len());
    assert("<:GrandChamp1:908455642061238293>"@[12] != "<:GrandChamp2:908455641838944276>"@[12]);
    assert("<:GrandChamp1:908455642061238293>"@[12] != "<:GrandChamp3:908455642245759006>"@[12]);
    assert("<:GrandChamp1:908455642061238293>"@.len() != "<:SupersonicLegend:757171265768259664>"@.len());
    assert("<:GrandChamp1:908455642061238293>"@.len() != "<:Unranked:908466188588310548>"@.len());
    assert("<:GrandChamp2:908455641838944276>"@[12] != "<:GrandChamp3:908455642245759006>"@[12]);
    assert("<:GrandChamp2:908455641838944276>"@.len() != "<:SupersonicLegend:757171265768259664>"@.len());
    assert("<:GrandChamp2:908455641838944276>"@.len() != "<:Unranked:908466188588310548>"@.len());
    assert("<:GrandChamp3:908455642245759006>"@.len() != "<:SupersonicLegend:757171265768259664>"@.len());
    assert("<:GrandChamp3:908455642245759006>"@.len() != "<:Unranked:908466188588310548>"@.len());
    assert("<:SupersonicLegend:757171265768259664>"@.len() != "<:Unranked:908466188588310548>"@.len());
}

/// Every tier with an emoji of its own gets an emoji that no other tier gets,
/// and never the emoji of tiers without one.
pub proof fn lemma_tier_emoji_distinct(t1: Seq<char>, t2: Seq<char>)
    requires
        is_named_tier(t1),
        is_named_tier(t2),
        t1 != t2,
    ensures
        tier_emoji(t1) != tier_emoji(t2),
        tier_emoji(t1) != "<:Unranked:908466188588310548>"@,
{
    lemma_tier_names_differ();
    lemma_tier_emojis_differ();
}

/// A tier without an emoji of its own gets the emoji of unranked players.
pub proof fn lemma_unnamed_tier_emoji(tier: Seq<char>)
    requires
        !is_named_tier(tier),
    ensures
        tier_emoji(tier) == "<:Unranked:908466188588310548>"@,
{
}

/// The emoji shown beside a tier.
pub fn tier_emoji_of(tier: &str) -> (r: &'static str)
    ensures
        r@ == tier_emoji(tier@),
{
    if str_eq(tier, "Bronze I") {
        return "<:Bronze1:908453289945886760>";
    }
    if str_eq(tier, "Bronze II") {
        return "<:Bronze2:908453289996197948>";
    }
    if str_eq(tier, "Bronze III") {
        return "<:Bronze3:908453289421590549>";
    }
    if str_eq(tier, "Silver I") {
        return "<:Silver1:908453289929089075>";
    }
    if str_eq(tier, "Silver II") {
        return "<:Silver2:908453289769717791>";
    }
    if str_eq(tier, "Silver III") {
        return "<:Silver3:908453289899728917>";
    }
    if str_eq(tier, "Gold I") {
        return "<:Gold1:908453289799057428>";
    }
    if str_eq(tier, "Gold II") {
        return "<:Gold2:908453289807470602>";
    }
    if str_eq(tier, "Gold III") {
        return "<:Gold3:908453289857785876>";
    }
    if str_eq(tier, "Platinum I") {
        return "<:Plat1:908453289643888721>";
    }
    if str_eq(tier, "Platinum II") {
        return "<:Plat2:908453289878757396>";
    }
    if str_eq(tier, "Platinum III") {
        return "<:Plat3:908453289572585543>";
    }
    if str_eq(tier, "Diamond I") {
        return "<:Diamond1:908453289807446037>";
    }
    if str_eq(tier, "Diamond II") {
        return "<:Diamond2:908453289903939584>";
    }
    if str_eq(tier, "Diamond III") {
        return "<:Diamond3:908453289836814376>";
    }
    if str_eq(tier, "Champion I") {
        return "<:Champ1:908453289820033104>";
    }
    if str_eq(tier, "Champion II") {
        return "<:Champ2:908453289857781800>";
    }
    if str_eq(tier, "Champion III") {
        return "<:Champ3:908453289945866250>";
    }
    if str_eq(tier, "Grand Champion I") {
        return "<:GrandChamp1:908455642061238293>";
    }
    if str_eq(tier, "Grand Champion II") {
        return "<:GrandChamp2:908455641838944276>";
    }
    if str_eq(tier, "Grand Champion III") {
        return "<:GrandChamp3:908455642245759006>";
    }
    if str_eq(tier, "Supersonic Legend") {
        return "<:SupersonicLegend:757171265768259664>";
    }
    "<:Unranked:908466188588310548>"
}

/// The tables of rating thresholds of the three standard playlists. Each line
/// reads `<tier> <division>, <low> - <high>`.
pub struct RankTables {
    pub duel: String,
    pub doubles: String,
    pub standard: String,
}

/// The table that a playlist's ranks are looked up in; other playlists use
/// the doubles table.
pub open spec fn table_for(playlist: Seq<char>, tables: RankTables) -> Seq<char> {
    if playlist == "Ranked Duel 1v1"@ {
        tables.duel@
    } else if playlist == "Ranked Doubles 2v2"@ {
        tables.doubles@
    } else if playlist == "Ranked Standard 3v3"@ {
        tables.standard@
    } else {
        tables.doubles@
    }
}

fn table_of<'a>(playlist: &str, tables: &'a RankTables) -> (r: &'a String)
    ensures
        r@ == table_for(playlist@, *tables),
{
    if str_eq(playlist, "Ranked Duel 1v1") {
        &tables.duel
    } else if str_eq(playlist, "Ranked Doubles 2v2") {
        &tables.doubles
    } else if str_eq(playlist, "Ranked Standard 3v3") {
        &tables.standard
    } else {
        &tables.doubles
    }
}

/// The separator between a table row's name and its ratings.
pub open spec fn comma_sep() -> Seq<char> {
    seq![',', ' ']
}

/// The separator between the low and high rating of a row.
pub open spec fn dash_sep() -> Seq<char> {
    seq![' ', '-', ' ']
}

/// The lines of a table.
pub open spec fn table_lines(table: Seq<char>) -> Seq<Seq<char>> {
    split_on(table, seq!['\n'])
}

/// The name that starts a table row.
pub open spec fn row_name(line: Seq<char>) -> Seq<char> {
    split_on(line, comma_sep())[0]
}

/// The text of the lowest rating of a row.
pub open spec fn row_low_text(line: Seq<char>) -> Seq<char> {
    split_on(split_on(line, comma_sep())[1], dash_sep())[0]
}

/// The first line at or after `i` whose row name is `name`, or -1.
pub open spec fn first_row(lines: Seq<Seq<char>>, name: Seq<char>, i: int) -> int
    decreases lines.len() - i,
{
    if i < 0 || i >= lines.len() {
        -1
    } else if row_name(lines[i]) == name {
        i
    } else {
        first_row(lines, name, i + 1)
    }
}

/// The rank name of a tier and division, as the tables write it.
pub open spec fn full_rank_name(r: RankView) -> Seq<char> {
    r.tier + " "@ + r.division
}

/// Whether looking up the rating gap of `r` in `table` stays within the table:
/// the row after the rank's row exists and starts its ratings with a number no
/// smaller than the rank's rating.
pub open spec fn gap_lookup_defined(table: Seq<char>, r: RankView) -> bool {
    let lines = table_lines(table);
    let i = first_row(lines, full_rank_name(r), 0);
    r.playlist == "Supersonic Legend"@ || i < 0 || {
        &&& i + 1 < lines.len()
        &&& split_on(lines[i + 1], comma_sep()).len() >= 2
        &&& parse_u64_spec(row_low_text(lines[i + 1])) matches Some(low)
        &&& low >= r.mmr
    }
}

/// The rating still needed for the next division: the lowest rating of the
/// row after the rank's row, minus the rank's rating; 0 for a playlist named
/// "Supersonic Legend"; `None` when no row names the rank.
pub open spec fn rating_gap(table: Seq<char>, r: RankView) -> Option<u64> {
    let lines = table_lines(table);
    let i = first_row(lines, full_rank_name(r), 0);
    if r.playlist == "Supersonic Legend"@ {
        Some(0)
    } else if i < 0 {
        None
    } else {
        Some((parse_u64_spec(row_low_text(lines[i + 1])).unwrap() - r.mmr) as u64)
    }
}

pub proof fn lemma_split_on_nonempty(s: Seq<char>, sep: Seq<char>)
    ensures
        split_on(s, sep).len() >= 1,
    decreases s.len(),
{
    if sep.len() > 0 {
        let k = find_from(s, sep, 0);
        if k >= 0 {
            lemma_find_from_bounds(s, sep, 0);
            lemma_split_on_nonempty(s.skip(k + sep.len()), sep);
        }
    }
}

fn rank_name_chars(r: &PlaylistRank) -> (v: Vec<char>)
    ensures
        v@ == full_rank_name(r@),
{
    let mut s = clone_string(&r.tier);
    s.append(" ");
    s.append(r.division.as_str());
    chars_of(s.as_str())
}

/// Looks up the rating gap of `r` in `table`.
pub fn rating_gap_of(table: &str, r: &PlaylistRank) -> (g: Option<u64>)
    requires
        gap_lookup_defined(table@, r@),
    ensures
        g == rating_gap(table@, r@),
{
    if str_eq(r.playlist.as_str(), "Supersonic Legend") {
        return Some(0);
    }
    let tv = chars_of(table);
    let nl = vec!['\n'];
    assert(nl@ =~= seq!['\n']);
    let lines = split_chars(&tv, &nl);
    let ghost ls = table_lines(table@);
    let name = rank_name_chars(r);
    let comma = vec![',', ' '];
    assert(comma@ =~= comma_sep());
    let dash = vec![' ', '-', ' '];
    assert(dash@ =~= dash_sep());
    let mut i: usize = 0;
    while i < lines.len()
        invariant
            i <= lines.len(),
            lines.len() == ls.len(),
            ls == table_lines(table@),
            forall|k: int| 0 <= k < lines.len() ==> #[trigger] lines[k]@ == ls[k],
            first_row(ls, full_rank_name(r@), 0) == first_row(ls, full_rank_name(r@), i as int),
            name@ == full_rank_name(r@),
            comma@ == comma_sep(),
            dash@ == dash_sep(),
            gap_lookup_defined(table@, r@),
            r@.playlist != "Supersonic Legend"@,
        decreases lines.len() - i,
    {
        let fields = split_chars(&lines[i], &comma);
        proof {
            lemma_split_on_nonempty(ls[i as int], comma_sep());
        }
        if chars_eq(&fields[0], &name) {
            let next = split_chars(&lines[i + 1], &comma);
            let low_parts = split_chars(&next[1], &dash);
            proof {
                lemma_split_on_nonempty(split_on(ls[i + 1], comma_sep())[1], dash_sep());
            }
            let low_text = string_of(&low_parts[0]);
            let low = parse_u64(low_text.as_str());
            match low {
                Some(v) => {
                    return Some(v - r.mmr);
                },
                None => {
                    return None;
                },
            }
        }
        i = i + 1;
    }
    None
}


/// The rating gap shown for the `n`-th standard rank: its own gap, or the gap
/// shown for the rank before it when its table has no row for it (0 before the first).
pub open spec fn shown_gap(ranks: Seq<RankView>, tables: RankTables, n: int) -> u64
    decreases n,
{
    if n <= 0 {
        0
    } else {
        let r = ranks[n - 1];
        match rating_gap(table_for(r.playlist, tables), r) {
            Some(g) => g,
            None => shown_gap(ranks, tables, n - 1),
        }
    }
}

/// The title of a report.
pub open spec fn report_title(username: Seq<char>) -> Seq<char> {
    "Rocket League Ranks: "@ + username
}

/// The name of the field about the highest rank.
pub open spec fn highest_field_name(r: RankView) -> Seq<char> {
    "Highest Ranked Standard Playlist: "@ + r.playlist
}

/// The text of the field about the highest rank.
pub open spec fn highest_field_value(r: RankView) -> Seq<char> {
    "Highest Rank: "@ + r.tier + " "@ + r.division + "\nMMR: "@ + decimal(r.mmr as nat)
}

/// The text of the field about one standard playlist.
pub open spec fn playlist_field_value(r: RankView, gap: u64) -> Seq<char> {
    tier_emoji(r.tier) + " "@ + r.tier + " "@ + r.division + "\nMMR: "@ + decimal(r.mmr as nat)
        + "\nNext division in "@ + decimal(gap as nat) + " MMR"@
}

/// The standard-playlist ranks of a profile.
pub open spec fn profile_standard_ranks(segments: Seq<TrackerSegment>) -> Seq<RankView> {
    standard_ranks_spec(playlist_ranks_spec(segments))
}

/// Whether a report can be composed: the playlist segments are complete, at
/// least one standard playlist is ranked, and every gap lookup stays within its table.
pub open spec fn report_defined(segments: Seq<TrackerSegment>, tables: RankTables) -> bool {
    let ranks = profile_standard_ranks(segments);
    &&& playlists_complete(segments)
    &&& ranks.len() > 0
    &&& forall|i: int|
        0 <= i < ranks.len() ==> gap_lookup_defined(
            table_for(#[trigger] ranks[i].playlist, tables),
            ranks[i],
        )
}

/// One field of the report.
pub struct ReportField {
    pub name: String,
    pub value: String,
}

/// The rank report of a player.
pub struct RankReport {
    pub title: String,
    pub highest_name: String,
    pub highest_value: String,
    pub thumbnail_url: String,
    pub fields: Vec<ReportField>,
    pub color: u32,
}

/// The colour of the report.
pub open spec fn report_color() -> u32 {
    0x00bfff
}

/// Whether `report` is the report of `username` for a profile with these
/// standard-playlist ranks.
pub open spec fn is_report_of(
    report: RankReport,
    username: Seq<char>,
    ranks: Seq<RankView>,
    tables: RankTables,
) -> bool {
    let best = ranks[best_rank(ranks, ranks.len() as int).0];
    &&& report.title@ == report_title(username)
    &&& report.highest_name@ == highest_field_name(best)
    &&& report.highest_value@ == highest_field_value(best)
    &&& report.thumbnail_url@ == best.icon_url
    &&& report.fields.len() == ranks.len()
    &&& forall|i: int|
        0 <= i < ranks.len() ==> {
            &&& (#[trigger] report.fields[i]).name@ == ranks[i].playlist
            &&& report.fields[i].value@ == playlist_field_value(
                ranks[i],
                shown_gap(ranks, tables, i + 1),
            )
        }
    &&& report.color == report_color()
}

fn push_decimal_text(s: &mut String, n: u64)
    ensures
        final(s)@ == old(s)@ + decimal(n as nat),
{
    push_decimal(s, n);
}

/// A report has one field per playlist segment of the three standard
/// playlists, and every field is named by one of them.
pub proof fn lemma_report_fields_are_standard(
    report: RankReport,
    username: Seq<char>,
    segments: Seq<TrackerSegment>,
    tables: RankTables,
)
    requires
        is_report_of(report, username, profile_standard_ranks(segments), tables),
    ensures
        report.fields.len() == playlist_ranks_spec(segments).filter(
            |r: RankView| standard_playlist_rank(r),
        ).len(),
        forall|i: int|
            0 <= i < report.fields.len() ==> {
                let n = (#[trigger] report.fields[i]).name@;
                n == "Ranked Duel 1v1"@ || n == "Ranked Doubles 2v2"@ || n == "Ranked Standard 3v3"@
            },
{
    let all = playlist_ranks_spec(segments);
    lemma_standard_ranks_filter(all);
    all.filter_lemma(|r: RankView| standard_playlist_rank(r));
    assert forall|i: int| 0 <= i < report.fields.len() implies {
        let n = (#[trigger] report.fields[i]).name@;
        n == "Ranked Duel 1v1"@ || n == "Ranked Doubles 2v2"@ || n == "Ranked Standard 3v3"@
    } by {
        assert(standard_playlist_rank(profile_standard_ranks(segments)[i]));
    }
}

/// Composes the report of `username` from the segments of the profile.
pub fn rank_report(username: &str, segments: &Vec<TrackerSegment>, tables: &RankTables) -> (r:
    RankReport)
    requires
        report_defined(segments@, *tables),
    ensures
        is_report_of(r, username@, profile_standard_ranks(segments@), *tables),
        r.fields.len() == playlist_ranks_spec(segments@).filter(
            |x: RankView| standard_playlist_rank(x),
        ).len(),
        forall|i: int|
            0 <= i < r.fields.len() ==> {
                let n = (#[trigger] r.fields[i]).name@;
                n == "Ranked Duel 1v1"@ || n == "Ranked Doubles 2v2"@ || n == "Ranked Standard 3v3"@
            },
{
    let all = playlist_ranks(segments);
    let ranks = standard_ranks(&all);
    let ghost rv = ranks@.map_values(|x: PlaylistRank| x@);
    assert(rv == profile_standard_ranks(segments@));
    let best_index = highest_rank_index(&ranks);
    let best = &ranks[best_index];
    assert(rv[best_index as int] == best@);
    let mut title = String::from_str("Rocket League Ranks: ");
    title.append(username);
    let mut highest_name = String::from_str("Highest Ranked Standard Playlist: ");
    highest_name.append(best.playlist.as_str());
    let mut highest_value = String::from_str("Highest Rank: ");
    highest_value.append(best.tier.as_str());
    highest_value.append(" ");
    highest_value.append(best.division.as_str());
    highest_value.append("\nMMR: ");
    push_decimal_text(&mut highest_value, best.mmr);
    let thumbnail_url = clone_string(&best.icon_url);
    let mut fields: Vec<ReportField> = Vec::new();
    let mut gap: u64 = 0;
    let mut i: usize = 0;
    while i < ranks.len()
        invariant
            i <= ranks.len(),
            rv == ranks@.map_values(|x: PlaylistRank| x@),
            rv == profile_standard_ranks(segments@),
            report_defined(segments@, *tables),
            gap == shown_gap(rv, *tables, i as int),
            fields.len() == i,
            forall|k: int|
                0 <= k < i ==> {
                    &&& (#[trigger] fields[k]).name@ == rv[k].playlist
                    &&& fields[k].value@ == playlist_field_value(
                        rv[k],
                        shown_gap(rv, *tables, k + 1),
                    )
                },
        decreases ranks.len() - i,
    {
        let r = &ranks[i];
        assert(rv[i as int] == r@);
        let table = table_of(r.playlist.as_str(), tables);
        assert(gap_lookup_defined(table_for(rv[i as int].playlist, *tables), rv[i as int]));
        match rating_gap_of(table.as_str(), r) {
            Some(g) => {
                gap = g;
            },
            None => {},
        }
        let mut value = String::from_str(tier_emoji_of(r.tier.as_str()));
        value.append(" ");
        value.append(r.tier.as_str());
        value.append(" ");
        value.append(r.division.as_str());
        value.append("\nMMR: ");
        push_decimal_text(&mut value, r.mmr);
        value.append("\nNext division in ");
        push_decimal_text(&mut value, gap);
        value.append(" MMR");
        fields.push(ReportField { name: clone_string(&r.playlist), value });
        i = i + 1;
    }
    let r = RankReport { title, highest_name, highest_value, thumbnail_url, fields, color: 0x00bfff };
    proof {
        lemma_report_fields_are_standard(r, username@, segments@, *tables);
    }
    r
}

/// Composes the report when it can be composed, and `None` otherwise.
pub fn try_rank_report(username: &str, segments: &Vec<TrackerSegment>, tables: &RankTables) -> (r:
    Option<RankReport>)
    ensures
        match r {
            Some(rep) => report_defined(segments@, *tables) && is_report_of(
                rep,
                username@,
                profile_standard_ranks(segments@),
                *tables,
            ),
            None => !report_defined(segments@, *tables),
        },
{
    let mut i: usize = 0;
    while i < segments.len()
        invariant
            i <= segments.len(),
            forall|k: int|
                0 <= k < i && is_playlist_segment(#[trigger] segments@[k]) ==> segment_complete(
                    segments@[k],
                ),
        decreases segments.len() - i,
    {
        let seg = &segments[i];
        if str_eq(seg.kind.as_str(), "playlist") && !(seg.playlist.is_some() && seg.tier.is_some()
            && seg.division.is_some() && seg.mmr.is_some() && seg.icon_url.is_some()) {
            return None;
        }
        i = i + 1;
    }
    let all = playlist_ranks(segments);
    let ranks = standard_ranks(&all);
    let ghost rv = ranks@.map_values(|x: PlaylistRank| x@);
    if ranks.len() == 0 {
        return None;
    }
    let mut j: usize = 0;
    while j < ranks.len()
        invariant
            j <= ranks.len(),
            rv == ranks@.map_values(|x: PlaylistRank| x@),
            rv == profile_standard_ranks(segments@),
            forall|k: int|
                0 <= k < j ==> gap_lookup_defined(
                    table_for(#[trigger] rv[k].playlist, *tables),
                    rv[k],
                ),
        decreases ranks.len() - j,
    {
        let r = &ranks[j];
        assert(rv[j as int] == r@);
        let table = table_of(r.playlist.as_str(), tables);
        if !gap_lookup_ok(table.as_str(), r) {
            return None;
        }
        j = j + 1;
    }
    Some(rank_report(username, segments, tables))
}

/// Whether the gap lookup of `r` in `table` stays within the table.
pub fn gap_lookup_ok(table: &str, r: &PlaylistRank) -> (b: bool)
    ensures
        b == gap_lookup_defined(table@, r@),
{
    if str_eq(r.playlist.as_str(), "Supersonic Legend") {
        return true;
    }
    let tv = chars_of(table);
    let nl = vec!['\n'];
    assert(nl@ =~= seq!['\n']);
    let lines = split_chars(&tv, &nl);
    let ghost ls = table_lines(table@);
    let name = rank_name_chars(r);
    let comma = vec![',', ' '];
    assert(comma@ =~= comma_sep());
    let dash = vec![' ', '-', ' '];
    assert(dash@ =~= dash_sep());
    let mut i: usize = 0;
    while i < lines.len()
        invariant
            i <= lines.len(),
            lines.len() == ls.len(),
            ls == table_lines(table@),
            forall|k: int| 0 <= k < lines.len() ==> #[trigger] lines[k]@ == ls[k],
            first_row(ls, full_rank_name(r@), 0) == first_row(ls, full_rank_name(r@), i as int),
            name@ == full_rank_name(r@),
            comma@ == comma_sep(),
            dash@ == dash_sep(),
            r@.playlist != "Supersonic Legend"@,
        decreases lines.len() - i,
    {
        let fields = split_chars(&lines[i], &comma);
        proof {
            lemma_split_on_nonempty(ls[i as int], comma_sep());
        }
        if chars_eq(&fields[0], &name) {
            if i + 1 >= lines.len() {
                return false;
            }
            let next = split_chars(&lines[i + 1], &comma);
            if next.len() < 2 {
                return false;
            }
            let low_parts = split_chars(&next[1], &dash);
            proof {
                lemma_split_on_nonempty(split_on(ls[i + 1], comma_sep())[1], dash_sep());
            }
            let low_text = string_of(&low_parts[0]);
            return match parse_u64(low_text.as_str()) {
                Some(v) => v >= r.mmr,
                None => false,
            };
        }
        i = i + 1;
    }
    true
}

} // verus!
