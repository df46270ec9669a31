use winnbot::commands::rank::{
    names_platform, parse_rank_command, rank_report, tier_emoji_of, try_rank_report,
    usage_text, RankTables, TrackerSegment,
};

fn request(content: &str) -> Option<(String, String)> {
    parse_rank_command(content).map(|r| (r.username, r.platform))
}

fn pair(a: &str, b: &str) -> Option<(String, String)> {
    Some((a.to_string(), b.to_string()))
}

#[test]
fn username_and_platform_are_read() {
    assert_eq!(request("!r foo steam"), pair("foo", "steam"));
    assert_eq!(request("!rlrank bob xbox"), pair("bob", "xbox"));
    assert_eq!(request("!r   carol   psn  "), pair("carol", "psn"));
}

#[test]
fn platform_first_is_swapped() {
    assert_eq!(request("!r steam foo"), pair("foo", "steam"));
    assert_eq!(request("!r STEAM foo"), pair("foo", "STEAM"));
    assert_eq!(request("!r foo steam"), request("!r steam foo"));
}

#[test]
fn lone_username_uses_epic() {
    assert_eq!(request("!r foo"), pair("foo", "epic"));
}

#[test]
fn usage_is_answered() {
    assert_eq!(request("!r"), None);
    assert_eq!(request("!r   "), None);
    assert_eq!(request("!r xbox"), None);
    assert_eq!(request("!rlrank Epic"), None);
    assert_eq!(usage_text(), "Not enough arguments. Usage: !r <username> <platform>");
}

#[test]
fn multibyte_prefix_is_sliced_by_bytes() {
    // "é" is two bytes, so the arguments start after "!é".
    assert_eq!(request("!éfoo bar"), pair("foo", "bar"));
}

#[test]
fn platform_names() {
    assert!(names_platform("Steam"));
    assert!(names_platform("psn"));
    assert!(!names_platform("ps"));
}

#[test]
fn tier_emojis() {
    assert_eq!(tier_emoji_of("Diamond II"), "<:Diamond2:908453289903939584>");
    assert_eq!(tier_emoji_of("Supersonic Legend"), "<:SupersonicLegend:757171265768259664>");
    assert_eq!(tier_emoji_of("Unranked"), "<:Unranked:908466188588310548>");
}

fn segment(kind: &str, playlist: &str, tier: &str, division: &str, mmr: u64, url: &str) -> TrackerSegment {
    TrackerSegment {
        kind: kind.to_string(),
        playlist: Some(playlist.to_string()),
        tier: Some(tier.to_string()),
        division: Some(division.to_string()),
        mmr: Some(mmr),
        icon_url: Some(url.to_string()),
    }
}

fn tables() -> RankTables {
    RankTables {
        duel: "Gold I Division I, 700 - 720\nGold I Division II, 721 - 740".to_string(),
        doubles: "Diamond II Division III, 1100 - 1120\nDiamond II Division IV, 1121 - 1140".to_string(),
        standard: "Silver III Division I, 500 - 520\nSilver III Division II, 521 - 540".to_string(),
    }
}

#[test]
fn report_of_a_profile() {
    let segments = vec![
        segment("overview", "Lifetime", "", "", 0, ""),
        segment("playlist", "Ranked Duel 1v1", "Gold I", "Division I", 710, "duel.png"),
        segment("playlist", "Casual", "Gold I", "Division I", 2000, "casual.png"),
        segment("playlist", "Ranked Doubles 2v2", "Diamond II", "Division III", 1110, "doubles.png"),
        segment("playlist", "Ranked Standard 3v3", "Platinum I", "Division I", 510, "standard.png"),
    ];
    let report = rank_report("alice", &segments, &tables());
    assert_eq!(report.title, "Rocket League Ranks: alice");
    assert_eq!(report.highest_name, "Highest Ranked Standard Playlist: Ranked Doubles 2v2");
    assert_eq!(report.highest_value, "Highest Rank: Diamond II Division III\nMMR: 1110");
    assert_eq!(report.thumbnail_url, "doubles.png");
    assert_eq!(report.color, 0x00bfff);
    assert_eq!(report.fields.len(), 3);
    assert_eq!(report.fields[0].name, "Ranked Duel 1v1");
    assert_eq!(
        report.fields[0].value,
        "<:Gold1:908453289799057428> Gold I Division I\nMMR: 710\nNext division in 11 MMR"
    );
    assert_eq!(
        report.fields[1].value,
        "<:Diamond2:908453289903939584> Diamond II Division III\nMMR: 1110\nNext division in 11 MMR"
    );
    // The standard table has no row for the rank, so the gap shown before is kept.
    assert_eq!(report.fields[2].name, "Ranked Standard 3v3");
    assert_eq!(
        report.fields[2].value,
        "<:Plat1:908453289643888721> Platinum I Division I\nMMR: 510\nNext division in 11 MMR"
    );
}

#[test]
fn highest_is_first_of_equal_ratings() {
    let segments = vec![
        segment("playlist", "Ranked Standard 3v3", "Gold I", "Division II", 900, "a.png"),
        segment("playlist", "Ranked Duel 1v1", "Gold I", "Division II", 900, "b.png"),
    ];
    let report = try_rank_report("bob", &segments, &RankTables {
        duel: String::new(),
        doubles: String::new(),
        standard: String::new(),
    })
    .unwrap();
    assert_eq!(report.thumbnail_url, "a.png");
    assert_eq!(report.fields[0].value, "<:Gold1:908453289799057428> Gold I Division II\nMMR: 900\nNext division in 0 MMR");
}

#[test]
fn report_refused_when_it_cannot_be_made() {
    let empty = RankTables { duel: String::new(), doubles: String::new(), standard: String::new() };
    // No standard playlist.
    let casual = vec![segment("playlist", "Casual", "Gold I", "Division I", 10, "")];
    assert!(try_rank_report("x", &casual, &empty).is_none());
    // A playlist segment without its rating.
    let mut broken = segment("playlist", "Ranked Duel 1v1", "Gold I", "Division I", 10, "");
    broken.mmr = None;
    assert!(try_rank_report("x", &vec![broken], &empty).is_none());
    // The rank's row is the table's last.
    let one_row = RankTables {
        duel: String::new(),
        doubles: String::new(),
        standard: "Silver III Division I, 500 - 520".to_string(),
    };
    let last_row = vec![segment("playlist", "Ranked Standard 3v3", "Silver III", "Division I", 510, "")];
    assert!(try_rank_report("x", &last_row, &one_row).is_none());
    // The next row starts below the rating.
    let above = vec![segment("playlist", "Ranked Duel 1v1", "Gold I", "Division I", 800, "")];
    assert!(try_rank_report("x", &above, &tables()).is_none());
}
