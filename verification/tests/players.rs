use kc_overlay::color::Rgb;
use kc_overlay::player::{
    find_badge_symbol, get_player_data, is_possible_cheater, player_of_body, player_of_document,
    rate_profile, read_profile, ClanEntry, Player, Profile, Skip, Tally,
};
use kc_overlay::stats::{Bedwars, Ratio, Stats, StatsType};

fn rgb(color: Rgb) -> (u8, u8, u8) {
    (color.red(), color.green(), color.blue())
}

fn bedwars(player: &Player) -> Bedwars {
    match player.stats {
        Stats::Bedwars(stats) => stats,
    }
}

fn parts(ratio: Ratio) -> (i64, i64) {
    (ratio.numerator(), ratio.denominator())
}

fn tally(n: i64) -> Tally {
    Tally { signed: Some(n), unsigned: if n >= 0 { Some(n as u64) } else { None } }
}

fn no_tally() -> Tally {
    Tally { signed: None, unsigned: None }
}

fn profile() -> Profile {
    Profile {
        first_login: Some(1_600_000_000_000),
        last_login: Some(1_700_000_000_000),
        rank_color: Some("#FFAA00".to_string()),
        clan: Some(ClanEntry {
            tag: Some("KC".to_string()),
            tag_color: Some("#55ff55".to_string()),
        }),
        connected: Some(true),
        level: Some(42),
        level_badge: Some("&b[42✫]".to_string()),
        winstreak: Some(3),
        wins: tally(10),
        losses: tally(4),
        kills: tally(50),
        deaths: tally(25),
        final_kills: tally(7),
        final_deaths: tally(0),
        assists: Some(9),
        play_time: Some(7200),
    }
}

const KNOWN: &str = r##"{
    "success": true,
    "response": {
        "first_login": 1600000000000,
        "last_login": 1700000000000,
        "rank_tag": {"color": "#FFAA00"},
        "clan": {"tag": "KC", "tag_color": "#55ff55"},
        "connected": true,
        "stats": {
            "bedwars": {
                "level": 42,
                "level_badge": {"format": "&b[42✫]", "hex_color": "#55ffff"},
                "winstreak": 3,
                "wins": 10, "losses": 4, "kills": 50, "deaths": 25,
                "final_kills": 7, "final_deaths": 0, "assists": 9,
                "solo_winstreak": 1,
                "solo_wins": 2, "solo_losses": 1, "solo_kills": 5, "solo_deaths": 0,
                "solo_final_kills": 3, "solo_final_deaths": 2, "solo_assists": 4
            },
            "play_time": {"bedwars": 7200, "bedwars_solo": 3599}
        }
    }
}"##;

#[test]
fn suspect_below_two_hours() {
    assert!(is_possible_cheater(7_199_999, 0));
    assert!(is_possible_cheater(1_700_000_000_000, 1_700_000_000_000));
    assert!(is_possible_cheater(0, 1));
}

#[test]
fn not_suspect_at_exactly_two_hours() {
    assert!(!is_possible_cheater(7_200_000, 0));
    assert!(!is_possible_cheater(1_700_007_200_000, 1_700_000_000_000));
    assert!(!is_possible_cheater(7_200_001, 0));
}

#[test]
fn suspect_span_is_taken_exactly() {
    assert!(!is_possible_cheater(i64::MAX, i64::MIN));
    assert!(is_possible_cheater(i64::MIN, i64::MAX));
    assert!(!is_possible_cheater(i64::MAX, 0));
}

#[test]
fn no_success_gives_a_nicked_record() {
    let player = player_of_body("Ghost", r#"{"success": false}"#, StatsType::BedwarsAll).unwrap();
    assert!(player.is_nicked);
    assert!(!player.is_possible_cheater);
    assert_eq!(player.username, "Ghost");
    assert_eq!(rgb(player.username_color), (0, 255, 255));
    assert_eq!(player.clan, None);
    assert_eq!(rgb(player.clan_color), (0, 0, 0));
    assert_eq!(player.account_creation, 0);
    assert_eq!(player.last_login, 0);
    assert!(player.is_connected);
    assert_eq!(bedwars(&player), Bedwars::placeholder(999));
}

#[test]
fn new_nicked_is_the_same_in_every_mode() {
    for mode in StatsType::get_stats_list() {
        let player = Player::new_nicked("Ghost".to_string(), mode);
        assert!(player.is_nicked);
        assert_eq!(player.username, "Ghost");
        assert_eq!(bedwars(&player), Bedwars::placeholder(999));
    }
}

#[test]
fn new_keeps_its_arguments() {
    let player = Player::new(
        "Amy".to_string(),
        Rgb::new(1, 2, 3),
        Some("KC".to_string()),
        Rgb::new(4, 5, 6),
        true,
        11,
        22,
        false,
        Stats::Bedwars(Bedwars::placeholder(998)),
    );
    assert_eq!(player.username, "Amy");
    assert_eq!(rgb(player.username_color), (1, 2, 3));
    assert_eq!(player.clan, Some("KC".to_string()));
    assert_eq!(rgb(player.clan_color), (4, 5, 6));
    assert!(!player.is_nicked);
    assert!(player.is_possible_cheater);
    assert_eq!((player.account_creation, player.last_login), (11, 22));
    assert!(!player.is_connected);
    assert_eq!(bedwars(&player).level, 998);
}

#[test]
fn known_account_gets_its_statistics() {
    let player = player_of_body("Amy", KNOWN, StatsType::BedwarsAll).unwrap();
    assert_eq!(player.username, "Amy");
    assert!(!player.is_nicked);
    assert!(!player.is_possible_cheater);
    assert_eq!(rgb(player.username_color), (255, 170, 0));
    assert_eq!(player.clan, Some("KC".to_string()));
    assert_eq!(rgb(player.clan_color), (85, 255, 85));
    assert_eq!(player.account_creation, 1_600_000_000_000);
    assert_eq!(player.last_login, 1_700_000_000_000);
    assert!(player.is_connected);
    let stats = bedwars(&player);
    assert_eq!(stats.level, 42);
    assert_eq!(stats.level_symbol, '✫');
    assert_eq!(rgb(stats.level_color), (85, 255, 255));
    assert_eq!(stats.winstreak, 3);
    assert_eq!(parts(stats.winrate), (10, 4));
    assert_eq!(parts(stats.kill_death_ratio), (50, 25));
    assert_eq!(parts(stats.final_kill_death_ratio), (0, 1));
    assert_eq!((stats.wins, stats.losses, stats.kills, stats.deaths), (10, 4, 50, 25));
    assert_eq!((stats.final_kills, stats.final_deaths, stats.assists), (7, 0, 9));
    assert_eq!(stats.hours_played, 2);
}

#[test]
fn statistics_follow_the_mode() {
    let player = player_of_body("Amy", KNOWN, StatsType::BedwarsSolo).unwrap();
    let stats = bedwars(&player);
    assert_eq!(stats.level, 42);
    assert_eq!(stats.winstreak, 1);
    assert_eq!(parts(stats.winrate), (2, 1));
    assert_eq!(parts(stats.kill_death_ratio), (0, 1));
    assert_eq!(parts(stats.final_kill_death_ratio), (3, 2));
    assert_eq!((stats.wins, stats.losses, stats.kills, stats.deaths), (2, 1, 5, 0));
    assert_eq!((stats.final_kills, stats.final_deaths, stats.assists), (3, 2, 4));
    assert_eq!(stats.hours_played, 0);
}

#[test]
fn mode_without_counters_counts_zero() {
    let player = player_of_body("Amy", KNOWN, StatsType::BedwarsQuads).unwrap();
    let stats = bedwars(&player);
    assert_eq!(stats.winstreak, 0);
    assert_eq!(parts(stats.winrate), (0, 1));
    assert_eq!((stats.wins, stats.losses, stats.assists), (0, 0, 0));
    assert_eq!(stats.hours_played, 0);
}

#[test]
fn young_account_gets_placeholder_statistics() {
    let body = KNOWN.replace("1700000000000", "1600007199999");
    let player = player_of_body("Amy", &body, StatsType::BedwarsAll).unwrap();
    assert!(player.is_possible_cheater);
    assert!(!player.is_nicked);
    assert_eq!(player.username, "Amy");
    assert_eq!(rgb(player.username_color), (255, 170, 0));
    assert_eq!(player.clan, Some("KC".to_string()));
    assert_eq!(rgb(player.clan_color), (85, 255, 85));
    assert_eq!(player.account_creation, 1_600_000_000_000);
    assert_eq!(player.last_login, 1_600_007_199_999);
    assert_eq!(bedwars(&player), Bedwars::placeholder(998));
}

#[test]
fn account_of_exactly_two_hours_is_ordinary() {
    let body = KNOWN.replace("1700000000000", "1600007200000");
    let player = player_of_body("Amy", &body, StatsType::BedwarsAll).unwrap();
    assert!(!player.is_possible_cheater);
    assert_eq!(bedwars(&player).level, 42);
}

#[test]
fn young_account_needs_no_statistics() {
    let body = r##"{"success": true, "response": {"first_login": 5, "last_login": 6,
        "rank_tag": {"color": "#ffffff"}, "connected": false}}"##;
    let player = player_of_body("Neo", body, StatsType::BedwarsAll).unwrap();
    assert!(player.is_possible_cheater);
    assert_eq!(player.clan, None);
    assert_eq!(rgb(player.clan_color), (255, 255, 255));
    assert!(!player.is_connected);
    assert_eq!(bedwars(&player), Bedwars::placeholder(998));
}

#[test]
fn text_that_is_no_json_is_skipped() {
    assert_eq!(player_of_body("Amy", "<html>", StatsType::BedwarsAll).unwrap_err(), Skip::NotJson);
    assert_eq!(player_of_body("Amy", "", StatsType::BedwarsAll).unwrap_err(), Skip::NotJson);
    assert_eq!(
        player_of_body("Amy", r#"{"success": false"#, StatsType::BedwarsAll).unwrap_err(),
        Skip::NotJson
    );
}

#[test]
fn document_without_success_flag_is_skipped() {
    for body in ["{}", "[]", "null", r#"{"success": "true"}"#, r#"{"success": 1}"#] {
        assert_eq!(
            player_of_body("Amy", body, StatsType::BedwarsAll).unwrap_err(),
            Skip::Malformed
        );
    }
}

#[test]
fn answer_that_lacks_a_field_is_skipped() {
    let broken = [
        KNOWN.replace("\"first_login\"", "\"first\""),
        KNOWN.replace("\"last_login\"", "\"last\""),
        KNOWN.replace("\"#FFAA00\"", "\"orange\""),
        KNOWN.replace("\"#FFAA00\"", "17"),
        KNOWN.replace("\"connected\": true", "\"connected\": \"yes\""),
        KNOWN.replace("\"tag\": \"KC\"", "\"name\": \"KC\""),
        KNOWN.replace("\"#55ff55\"", "\"green\""),
        KNOWN.replace("\"&b[42✫]\"", "\"&b[42]\""),
        KNOWN.replace("\"&b[42✫]\"", "\"✫\""),
        KNOWN.replace("\"format\"", "\"shape\""),
        r#"{"success": true}"#.to_string(),
        r#"{"success": true, "response": 3}"#.to_string(),
    ];
    for body in broken {
        assert_eq!(
            player_of_body("Amy", &body, StatsType::BedwarsAll).unwrap_err(),
            Skip::Malformed
        );
    }
}

#[test]
fn clan_that_is_no_object_is_no_clan() {
    let body = KNOWN.replace(r##"{"tag": "KC", "tag_color": "#55ff55"}"##, "null");
    let player = player_of_body("Amy", &body, StatsType::BedwarsAll).unwrap();
    assert_eq!(player.clan, None);
    assert_eq!(rgb(player.clan_color), (255, 255, 255));
}

#[test]
fn document_and_response_are_read_alike() {
    let document: serde_json::Value = serde_json::from_str(KNOWN).unwrap();
    let player = player_of_document("Amy", &document, StatsType::BedwarsAll).unwrap();
    assert_eq!(bedwars(&player).level, 42);
    let player =
        get_player_data("Bob".to_string(), &document["response"], StatsType::BedwarsAll).unwrap();
    assert_eq!(player.username, "Bob");
    assert_eq!(bedwars(&player).wins, 10);
    assert!(get_player_data("Bob".to_string(), &document, StatsType::BedwarsAll).is_none());
}

#[test]
fn profile_is_read_field_by_field() {
    let document: serde_json::Value = serde_json::from_str(KNOWN).unwrap();
    let read = read_profile(&document["response"], StatsType::BedwarsSolo);
    assert_eq!(read.first_login, Some(1_600_000_000_000));
    assert_eq!(read.last_login, Some(1_700_000_000_000));
    assert_eq!(read.rank_color, Some("#FFAA00".to_string()));
    let clan = read.clan.unwrap();
    assert_eq!(clan.tag, Some("KC".to_string()));
    assert_eq!(clan.tag_color, Some("#55ff55".to_string()));
    assert_eq!(read.connected, Some(true));
    assert_eq!(read.level, Some(42));
    assert_eq!(read.level_badge, Some("&b[42✫]".to_string()));
    assert_eq!(read.winstreak, Some(1));
    assert_eq!((read.wins.signed, read.wins.unsigned), (Some(2), Some(2)));
    assert_eq!((read.deaths.signed, read.deaths.unsigned), (Some(0), Some(0)));
    assert_eq!(read.assists, Some(4));
    assert_eq!(read.play_time, Some(3599));
    let empty = read_profile(&document["success"], StatsType::BedwarsAll);
    assert_eq!(empty.first_login, None);
    assert!(empty.clan.is_none());
    assert_eq!((empty.wins.signed, empty.wins.unsigned), (None, None));
}

#[test]
fn numbers_are_read_both_ways() {
    let body = r##"{"stats": {"bedwars": {"wins": -3, "losses": 18446744073709551615,
        "kills": 2.5, "deaths": "4", "level": 9223372036854775808}}}"##;
    let document: serde_json::Value = serde_json::from_str(body).unwrap();
    let read = read_profile(&document, StatsType::BedwarsAll);
    assert_eq!((read.wins.signed, read.wins.unsigned), (Some(-3), None));
    assert_eq!((read.losses.signed, read.losses.unsigned), (None, Some(u64::MAX)));
    assert_eq!((read.kills.signed, read.kills.unsigned), (None, None));
    assert_eq!((read.deaths.signed, read.deaths.unsigned), (None, None));
    assert_eq!(read.level, None);
}

#[test]
fn from_profile_on_plain_values() {
    let player = Player::from_profile("Amy".to_string(), &profile(), StatsType::BedwarsAll).unwrap();
    assert_eq!(player.username, "Amy");
    assert!(!player.is_possible_cheater);
    let stats = bedwars(&player);
    assert_eq!(stats.level, 42);
    assert_eq!(stats.level_symbol, '✫');
    assert_eq!(parts(stats.winrate), (10, 4));
    assert_eq!(parts(stats.final_kill_death_ratio), (0, 1));
    assert_eq!(stats.hours_played, 2);
}

#[test]
fn from_profile_refuses_what_is_incomplete() {
    let mut p = profile();
    p.first_login = None;
    assert!(Player::from_profile("Amy".to_string(), &p, StatsType::BedwarsAll).is_none());
    let mut p = profile();
    p.connected = None;
    assert!(Player::from_profile("Amy".to_string(), &p, StatsType::BedwarsAll).is_none());
    let mut p = profile();
    p.rank_color = Some("#12".to_string());
    assert!(Player::from_profile("Amy".to_string(), &p, StatsType::BedwarsAll).is_none());
    let mut p = profile();
    p.clan = Some(ClanEntry { tag: None, tag_color: Some("#ffffff".to_string()) });
    assert!(Player::from_profile("Amy".to_string(), &p, StatsType::BedwarsAll).is_none());
    let mut p = profile();
    p.level_badge = None;
    assert!(Player::from_profile("Amy".to_string(), &p, StatsType::BedwarsAll).is_none());
}

#[test]
fn missing_counts_are_zero_and_missing_play_time_is_one_second() {
    let mut p = profile();
    p.level = None;
    p.winstreak = None;
    p.wins = no_tally();
    p.deaths = no_tally();
    p.assists = None;
    p.play_time = None;
    let stats = rate_profile(&p).unwrap();
    assert_eq!(stats.level, 0);
    assert_eq!(stats.winstreak, 0);
    assert_eq!(parts(stats.winrate), (0, 4));
    assert_eq!(parts(stats.kill_death_ratio), (0, 1));
    assert_eq!((stats.wins, stats.deaths, stats.assists), (0, 0, 0));
    assert_eq!(stats.hours_played, 0);
}

#[test]
fn ratios_take_the_signed_reading_and_counts_the_unsigned() {
    let mut p = profile();
    p.wins = Tally { signed: Some(-3), unsigned: None };
    p.losses = Tally { signed: None, unsigned: Some(u64::MAX) };
    let stats = rate_profile(&p).unwrap();
    assert_eq!(parts(stats.winrate), (0, 1));
    assert_eq!((stats.wins, stats.losses), (0, u64::MAX));
    p.losses = tally(2);
    let stats = rate_profile(&p).unwrap();
    assert_eq!(parts(stats.winrate), (-3, 2));
}

#[test]
fn level_and_winstreak_keep_their_low_32_bits() {
    let mut p = profile();
    p.level = Some(4_294_967_296 + 7);
    p.winstreak = Some(2_147_483_648);
    let stats = rate_profile(&p).unwrap();
    assert_eq!(stats.level, 7);
    assert_eq!(stats.winstreak, i32::MIN);
}

#[test]
fn hours_are_whole_hours() {
    for (seconds, hours) in [(0u64, 0u64), (3599, 0), (3600, 1), (7199, 1), (36_000, 10)] {
        let mut p = profile();
        p.play_time = Some(seconds);
        assert_eq!(rate_profile(&p).unwrap().hours_played, hours);
    }
}

#[test]
fn badge_symbol_is_the_first_that_is_no_ascii_mark() {
    let symbol = |text: &str| find_badge_symbol(&text.chars().collect());
    assert_eq!(symbol("&b[42✫]"), Some('✫'));
    assert_eq!(symbol("§b[42✫]"), Some('§'));
    assert_eq!(symbol("&7[1✪✫]"), Some('✪'));
    assert_eq!(symbol("abc XYZ 019 !?~`{}"), None);
    assert_eq!(symbol(" \t\n\r\u{c}"), None);
    assert_eq!(symbol("a\u{b}"), Some('\u{b}'));
    assert_eq!(symbol("a\u{7f}"), Some('\u{7f}'));
    assert_eq!(symbol("\u{0}"), Some('\u{0}'));
    assert_eq!(symbol(""), None);
}

#[test]
fn badge_colour_is_its_second_character() {
    let mut p = profile();
    p.level_badge = Some("&c[7✫]".to_string());
    assert_eq!(rgb(rate_profile(&p).unwrap().level_color), (255, 85, 85));
    p.level_badge = Some("&".to_string());
    assert!(rate_profile(&p).is_none());
    p.level_badge = Some("✫".to_string());
    assert!(rate_profile(&p).is_none());
    p.level_badge = Some("✫x".to_string());
    assert_eq!(rgb(rate_profile(&p).unwrap().level_color), (255, 255, 255));
}
