//! Player records, and how one is made from what the statistics service
//! answers about a name.

use crate::color::{hex_color, minecraft_palette, Rgb};
use crate::json::{as_bool, as_i64, as_str, as_u64, is_object, json_tree, member, JsonTree};
use crate::stats::{
    placeholder_view, quotient, Bedwars, BedwarsView, Counter, Ratio, Stats, StatsType, StatsView,
    NICKED_LEVEL, SUSPECT_LEVEL,
};
use crate::text::to_chars;
use serde_json::Value;
use vstd::prelude::*;
use vstd::string::*;

verus! {

/// A span between first and last login below this many milliseconds (two
/// hours) marks an account as a possible cheater's.
pub const SUSPECT_SPAN_MILLIS: i64 = 7_200_000;

/// Whether an account with these two login times, in milliseconds, counts as
/// a possible cheater's: its whole life is shorter than two hours.
pub open spec fn possible_cheater(last_login: int, first_login: int) -> bool {
    last_login - first_login < SUSPECT_SPAN_MILLIS
}

/// Whether an account with these two login times counts as a possible
/// cheater's. The difference is taken exactly, whatever the two times.
pub fn is_possible_cheater(last_login: i64, first_login: i64) -> (suspect: bool)
    ensures
        suspect == possible_cheater(last_login as int, first_login as int),
{
    (last_login as i128) - (first_login as i128) < (SUSPECT_SPAN_MILLIS as i128)
}

/// Exactly two hours between the logins is not suspect; one millisecond less is.
pub proof fn lemma_suspect_span_boundary(first_login: int)
    ensures
        !possible_cheater(first_login + 7_200_000, first_login),
        possible_cheater(first_login + 7_199_999, first_login),
{
}

/// Whether a character is an ASCII letter or digit.
pub open spec fn is_ascii_alphanumeric(c: char) -> bool {
    ('0' <= c <= '9') || ('A' <= c <= 'Z') || ('a' <= c <= 'z')
}

/// Whether a character is an ASCII blank: space, tab, line feed, form feed
/// or carriage return.
pub open spec fn is_ascii_whitespace(c: char) -> bool {
    c == ' ' || c == '\t' || c == '\n' || c == '\x0C' || c == '\r'
}

/// Whether a character is an ASCII punctuation mark.
pub open spec fn is_ascii_punctuation(c: char) -> bool {
    ('!' <= c <= '/') || (':' <= c <= '@') || ('[' <= c <= '`') || ('{' <= c <= '~')
}

/// Whether a character of a level badge is its symbol: it is no ASCII letter,
/// digit, blank or punctuation mark.
pub open spec fn is_badge_symbol(c: char) -> bool {
    !is_ascii_alphanumeric(c) && !is_ascii_whitespace(c) && !is_ascii_punctuation(c)
}

/// The symbols of a badge's format, in order.
pub open spec fn badge_symbols(format: Seq<char>) -> Seq<char> {
    format.filter(|c: char| is_badge_symbol(c))
}

/// The symbol of a level badge: the first symbol in its format.
pub open spec fn badge_symbol(format: Seq<char>) -> Option<char> {
    if badge_symbols(format).len() > 0 {
        Some(badge_symbols(format)[0])
    } else {
        None
    }
}

/// A counter read both ways: as a signed and as an unsigned number.
#[derive(Debug, Clone, Copy)]
pub struct Tally {
    pub signed: Option<i64>,
    pub unsigned: Option<u64>,
}

/// The clan entry of an answer.
#[derive(Debug, Clone)]
pub struct ClanEntry {
    pub tag: Option<String>,
    pub tag_color: Option<String>,
}

/// What an answer of the service says about an account, field by field as
/// read. A field is `None` where the answer lacks it or holds another kind of
/// value there; `clan` is `None` where the answer holds no clan object.
#[derive(Debug, Clone)]
pub struct Profile {
    pub first_login: Option<i64>,
    pub last_login: Option<i64>,
    pub rank_color: Option<String>,
    pub clan: Option<ClanEntry>,
    pub connected: Option<bool>,
    pub level: Option<i64>,
    pub level_badge: Option<String>,
    pub winstreak: Option<i64>,
    pub wins: Tally,
    pub losses: Tally,
    pub kills: Tally,
    pub deaths: Tally,
    pub final_kills: Tally,
    pub final_deaths: Tally,
    pub assists: Option<u64>,
    pub play_time: Option<u64>,
}

/// A `ClanEntry` as plain values: each string as its characters.
pub struct ClanView {
    pub tag: Option<Seq<char>>,
    pub tag_color: Option<Seq<char>>,
}

/// A `Profile` as plain values: each string as its characters.
pub struct ProfileView {
    pub first_login: Option<i64>,
    pub last_login: Option<i64>,
    pub rank_color: Option<Seq<char>>,
    pub clan: Option<ClanView>,
    pub connected: Option<bool>,
    pub level: Option<i64>,
    pub level_badge: Option<Seq<char>>,
    pub winstreak: Option<i64>,
    pub wins: Tally,
    pub losses: Tally,
    pub kills: Tally,
    pub deaths: Tally,
    pub final_kills: Tally,
    pub final_deaths: Tally,
    pub assists: Option<u64>,
    pub play_time: Option<u64>,
}

/// The characters of an optional string.
pub open spec fn text_of(text: Option<String>) -> Option<Seq<char>> {
    match text {
        Some(s) => Some(s@),
        None => None,
    }
}

impl View for ClanEntry {
    type V = ClanView;

    open spec fn view(&self) -> ClanView {
        ClanView { tag: text_of(self.tag), tag_color: text_of(self.tag_color) }
    }
}

impl View for Profile {
    type V = ProfileView;

    open spec fn view(&self) -> ProfileView {
        ProfileView {
            first_login: self.first_login,
            last_login: self.last_login,
            rank_color: text_of(self.rank_color),
            clan: match self.clan {
                Some(entry) => Some(entry@),
                None => None,
            },
            connected: self.connected,
            level: self.level,
            level_badge: text_of(self.level_badge),
            winstreak: self.winstreak,
            wins: self.wins,
            losses: self.losses,
            kills: self.kills,
            deaths: self.deaths,
            final_kills: self.final_kills,
            final_deaths: self.final_deaths,
            assists: self.assists,
            play_time: self.play_time,
        }
    }
}

/// A counter of a JSON value, read both ways.
pub open spec fn tally_of(tree: JsonTree) -> Tally {
    Tally { signed: tree.as_i64(), unsigned: tree.as_u64() }
}

/// What the `response` object of an answer says about an account, for the
/// mode `stats_type`.
pub open spec fn profile_model(response: JsonTree, stats_type: StatsType) -> ProfileView {
    let clan = response.member("clan"@);
    let stats = response.member("stats"@);
    let bedwars = stats.member("bedwars"@);
    ProfileView {
        first_login: response.member("first_login"@).as_i64(),
        last_login: response.member("last_login"@).as_i64(),
        rank_color: response.member("rank_tag"@).member("color"@).as_text(),
        clan: if clan is Object {
            Some(
                ClanView {
                    tag: clan.member("tag"@).as_text(),
                    tag_color: clan.member("tag_color"@).as_text(),
                },
            )
        } else {
            None
        },
        connected: response.member("connected"@).as_bool(),
        level: bedwars.member("level"@).as_i64(),
        level_badge: bedwars.member("level_badge"@).member("format"@).as_text(),
        winstreak: bedwars.member(stats_type.counter_key(Counter::Winstreak)).as_i64(),
        wins: tally_of(bedwars.member(stats_type.counter_key(Counter::Wins))),
        losses: tally_of(bedwars.member(stats_type.counter_key(Counter::Losses))),
        kills: tally_of(bedwars.member(stats_type.counter_key(Counter::Kills))),
        deaths: tally_of(bedwars.member(stats_type.counter_key(Counter::Deaths))),
        final_kills: tally_of(bedwars.member(stats_type.counter_key(Counter::FinalKills))),
        final_deaths: tally_of(bedwars.member(stats_type.counter_key(Counter::FinalDeaths))),
        assists: bedwars.member(stats_type.counter_key(Counter::Assists)).as_u64(),
        play_time: stats.member("play_time"@).member(stats_type.play_time_key()).as_u64(),
    }
}

/// A player of the room, with the statistics shown for them.
#[derive(Debug, Clone)]
pub struct Player {
    pub username: String,
    pub username_color: Rgb,
    pub clan: Option<String>,
    pub clan_color: Rgb,
    pub is_nicked: bool,
    pub is_possible_cheater: bool,
    pub account_creation: i64,
    pub last_login: i64,
    pub is_connected: bool,
    pub stats: Stats,
}

/// A `Player` as plain values: each string as its characters.
pub struct PlayerView {
    pub username: Seq<char>,
    pub username_color: (int, int, int),
    pub clan: Option<Seq<char>>,
    pub clan_color: (int, int, int),
    pub is_nicked: bool,
    pub is_possible_cheater: bool,
    pub account_creation: int,
    pub last_login: int,
    pub is_connected: bool,
    pub stats: StatsView,
}

impl View for Player {
    type V = PlayerView;

    open spec fn view(&self) -> PlayerView {
        PlayerView {
            username: self.username@,
            username_color: self.username_color.channels(),
            clan: text_of(self.clan),
            clan_color: self.clan_color.channels(),
            is_nicked: self.is_nicked,
            is_possible_cheater: self.is_possible_cheater,
            account_creation: self.account_creation as int,
            last_login: self.last_login as int,
            is_connected: self.is_connected,
            stats: self.stats@,
        }
    }
}

/// The record of a name that the service does not know: placeholder
/// statistics under the level 999, in cyan, with no clan.
pub open spec fn nicked_player(username: Seq<char>) -> PlayerView {
    PlayerView {
        username,
        username_color: (0, 255, 255),
        clan: None,
        clan_color: (0, 0, 0),
        is_nicked: true,
        is_possible_cheater: false,
        account_creation: 0,
        last_login: 0,
        is_connected: true,
        stats: StatsView::Bedwars(placeholder_view(NICKED_LEVEL as int)),
    }
}

/// A counter as a ratio takes it: the signed reading, zero where there is none.
pub open spec fn ratio_term(tally: Tally) -> int {
    match tally.signed {
        Some(n) => n as int,
        None => 0,
    }
}

/// A counter as it is shown: the unsigned reading, zero where there is none.
pub open spec fn count_of(tally: Tally) -> int {
    match tally.unsigned {
        Some(n) => n as int,
        None => 0,
    }
}

/// The statistics of an ordinary account. They need a level badge whose
/// format holds a symbol and, as its second character, a colour code.
pub open spec fn rated_stats(profile: ProfileView) -> Option<BedwarsView> {
    match profile.level_badge {
        Some(format) => if format.len() >= 2 && badge_symbol(format) is Some {
            Some(
                BedwarsView {
                    level: (match profile.level {
                        Some(n) => n,
                        None => 0i64,
                    }) as i32 as int,
                    level_symbol: badge_symbol(format)->0,
                    winstreak: (match profile.winstreak {
                        Some(n) => n,
                        None => 0i64,
                    }) as i32 as int,
                    winrate: quotient(ratio_term(profile.wins), ratio_term(profile.losses)),
                    final_kill_death_ratio: quotient(
                        ratio_term(profile.final_kills),
                        ratio_term(profile.final_deaths),
                    ),
                    kill_death_ratio: quotient(
                        ratio_term(profile.kills),
                        ratio_term(profile.deaths),
                    ),
                    level_color: minecraft_palette(format[1]),
                    wins: count_of(profile.wins),
                    losses: count_of(profile.losses),
                    kills: count_of(profile.kills),
                    deaths: count_of(profile.deaths),
                    final_kills: count_of(profile.final_kills),
                    final_deaths: count_of(profile.final_deaths),
                    hours_played: (match profile.play_time {
                        Some(seconds) => seconds as int,
                        None => 1,
                    }) / 3600,
                    assists: match profile.assists {
                        Some(n) => n as int,
                        None => 0,
                    },
                },
            )
        } else {
            None
        },
        None => None,
    }
}

/// The clan tag and its colour: none and white without a clan; with one, its
/// tag and colour, which must both be there, the colour in hexadecimal.
pub open spec fn clan_model(clan: Option<ClanView>) -> Option<(Option<Seq<char>>, (int, int, int))> {
    match clan {
        None => Some((None, (255, 255, 255))),
        Some(entry) => match (entry.tag, entry.tag_color) {
            (Some(tag), Some(color)) => match hex_color(color) {
                Some(channels) => Some((Some(tag), channels)),
                None => None,
            },
            _ => None,
        },
    }
}

/// The record of an account that the service knows, `None` where the answer
/// lacks something that the record needs.
///
/// Both login times, the rank colour in hexadecimal, the connection flag and a
/// sound clan entry are always needed. An account taken for a possible
/// cheater's gets placeholder statistics under the level 998; any other gets
/// its own, which must be sound too.
pub open spec fn known_player(username: Seq<char>, profile: ProfileView) -> Option<PlayerView> {
    match (
        profile.first_login,
        profile.last_login,
        profile.rank_color,
        profile.connected,
        clan_model(profile.clan),
    ) {
        (Some(first), Some(last), Some(color), Some(connected), Some(clan)) => {
            let suspect = possible_cheater(last as int, first as int);
            let stats = if suspect {
                Some(placeholder_view(SUSPECT_LEVEL as int))
            } else {
                rated_stats(profile)
            };
            match (hex_color(color), stats) {
                (Some(channels), Some(bedwars)) => Some(
                    PlayerView {
                        username,
                        username_color: channels,
                        clan: clan.0,
                        clan_color: clan.1,
                        is_nicked: false,
                        is_possible_cheater: suspect,
                        account_creation: first as int,
                        last_login: last as int,
                        is_connected: connected,
                        stats: StatsView::Bedwars(bedwars),
                    },
                ),
                _ => None,
            }
        },
        _ => None,
    }
}

/// A record is of exactly one kind. One that is nicked or a possible
/// cheater's carries placeholder statistics and nothing of the account's own.
pub proof fn lemma_record_kinds(username: Seq<char>, profile: ProfileView)
    ensures
        nicked_player(username).is_nicked && !nicked_player(username).is_possible_cheater,
        nicked_player(username).stats == StatsView::Bedwars(placeholder_view(999)),
        known_player(username, profile) matches Some(player) ==> {
            &&& !player.is_nicked
            &&& player.username == username
            &&& player.is_possible_cheater == possible_cheater(
                profile.last_login->0 as int,
                profile.first_login->0 as int,
            )
            &&& player.is_possible_cheater ==> player.stats == StatsView::Bedwars(
                placeholder_view(998),
            )
            &&& !player.is_possible_cheater ==> Some(player.stats->Bedwars_0) == rated_stats(
                profile,
            )
        },
{
}

/// The three ratios of a record's statistics are finite numbers, and zero
/// where the count below the line is zero: no losses, no deaths, no final
/// deaths.
pub proof fn lemma_ratios_are_finite(profile: ProfileView)
    ensures
        rated_stats(profile) matches Some(stats) ==> {
            &&& stats.winrate.1 != 0
            &&& stats.final_kill_death_ratio.1 != 0
            &&& stats.kill_death_ratio.1 != 0
            &&& ratio_term(profile.losses) == 0 ==> stats.winrate == (0int, 1int)
            &&& ratio_term(profile.final_deaths) == 0 ==> stats.final_kill_death_ratio == (
                0int,
                1int,
            )
            &&& ratio_term(profile.deaths) == 0 ==> stats.kill_death_ratio == (0int, 1int)
        },
{
}

fn is_symbol(c: char) -> (r: bool)
    ensures
        r == is_badge_symbol(c),
{
    let alphanumeric = ('0' <= c && c <= '9') || ('A' <= c && c <= 'Z') || ('a' <= c && c <= 'z');
    let whitespace = c == ' ' || c == '\t' || c == '\n' || c == '\x0C' || c == '\r';
    let punctuation = ('!' <= c && c <= '/') || (':' <= c && c <= '@') || ('[' <= c && c <= '`')
        || ('{' <= c && c <= '~');
    !alphanumeric && !whitespace && !punctuation
}

/// The symbol of a level badge: the first character of its format that is no
/// ASCII letter, digit, blank or punctuation mark.
pub fn find_badge_symbol(format: &Vec<char>) -> (symbol: Option<char>)
    ensures
        symbol == badge_symbol(format@),
{
    let mut i: usize = 0;
    while i < format.len()
        invariant
            i <= format.len(),
            badge_symbols(format@.take(i as int)).len() == 0,
        decreases format.len() - i,
    {
        proof {
            crate::text::lemma_filter_take_step(format@, |c: char| is_badge_symbol(c), i as int);
        }
        if is_symbol(format[i]) {
            proof {
                let keep = |c: char| is_badge_symbol(c);
                let head = format@.take(i + 1);
                let tail = format@.skip(i + 1);
                assert(head + tail =~= format@);
                Seq::filter_distributes_over_add(head, tail, keep);
                assert(head.filter(keep) =~= seq![format@[i as int]]);
                assert(badge_symbols(format@)[0] == format@[i as int]);
            }
            return Some(format[i]);
        }
        i += 1;
    }
    assert(format@.take(i as int) =~= format@);
    None
}

fn signed_or_zero(tally: &Tally) -> (n: i64)
    ensures
        n == ratio_term(*tally),
{
    match tally.signed {
        Some(n) => n,
        None => 0,
    }
}

fn unsigned_or_zero(tally: &Tally) -> (n: u64)
    ensures
        n == count_of(*tally),
{
    match tally.unsigned {
        Some(n) => n,
        None => 0,
    }
}

fn narrowed(number: Option<i64>) -> (n: i32)
    ensures
        n == (match number {
            Some(n) => n,
            None => 0i64,
        }) as i32,
{
    let wide: i64 = match number {
        Some(n) => n,
        None => 0,
    };
    #[verifier::truncate]
    (wide as i32)
}

/// The statistics of an ordinary account.
pub fn rate_profile(profile: &Profile) -> (stats: Option<Bedwars>)
    ensures
        match stats {
            Some(bedwars) => rated_stats(profile@) == Some(bedwars@),
            None => rated_stats(profile@) is None,
        },
{
    let format = match &profile.level_badge {
        Some(text) => to_chars(text.as_str()),
        None => {
            return None;
        },
    };
    if format.len() < 2 {
        return None;
    }
    let symbol = match find_badge_symbol(&format) {
        Some(c) => c,
        None => {
            return None;
        },
    };
    let seconds: u64 = match profile.play_time {
        Some(s) => s,
        None => 1,
    };
    let assists: u64 = match profile.assists {
        Some(n) => n,
        None => 0,
    };
    Some(
        Bedwars {
            level: narrowed(profile.level),
            level_symbol: symbol,
            winstreak: narrowed(profile.winstreak),
            winrate: Ratio::new(signed_or_zero(&profile.wins), signed_or_zero(&profile.losses)),
            final_kill_death_ratio: Ratio::new(
                signed_or_zero(&profile.final_kills),
                signed_or_zero(&profile.final_deaths),
            ),
            kill_death_ratio: Ratio::new(
                signed_or_zero(&profile.kills),
                signed_or_zero(&profile.deaths),
            ),
            level_color: Rgb::from_minecraft_color(&format[1]),
            wins: unsigned_or_zero(&profile.wins),
            losses: unsigned_or_zero(&profile.losses),
            kills: unsigned_or_zero(&profile.kills),
            deaths: unsigned_or_zero(&profile.deaths),
            final_kills: unsigned_or_zero(&profile.final_kills),
            final_deaths: unsigned_or_zero(&profile.final_deaths),
            hours_played: seconds / 3600,
            assists,
        },
    )
}

fn clan_of(clan: &Option<ClanEntry>) -> (r: Option<(Option<String>, Rgb)>)
    ensures
        match r {
            Some(pair) => clan_model(
                match *clan {
                    Some(entry) => Some(entry@),
                    None => None,
                },
            ) == Some((text_of(pair.0), pair.1.channels())),
            None => clan_model(
                match *clan {
                    Some(entry) => Some(entry@),
                    None => None,
                },
            ) is None,
        },
{
    match clan {
        None => Some((None, Rgb::new(255, 255, 255))),
        Some(entry) => match (&entry.tag, &entry.tag_color) {
            (Some(tag), Some(color)) => match Rgb::try_from_hex(color.as_str()) {
                Some(rgb) => Some((Some(tag.clone()), rgb)),
                None => None,
            },
            _ => None,
        },
    }
}

fn text_at(value: &Value) -> (text: Option<String>)
    ensures
        text_of(text) == json_tree(*value).as_text(),
{
    match as_str(value) {
        Some(s) => Some(String::from_str(s)),
        None => None,
    }
}

fn counter_at<'a>(bedwars: &'a Value, stats_type: StatsType, counter: Counter) -> (found: &'a Value)
    ensures
        json_tree(*found) == json_tree(*bedwars).member(stats_type.counter_key(counter)),
{
    let key = stats_type.key_of(counter);
    member(bedwars, key.as_str())
}

fn tally_at(bedwars: &Value, stats_type: StatsType, counter: Counter) -> (tally: Tally)
    ensures
        tally == tally_of(json_tree(*bedwars).member(stats_type.counter_key(counter))),
{
    let found = counter_at(bedwars, stats_type, counter);
    Tally { signed: as_i64(found), unsigned: as_u64(found) }
}

/// Reads from the `response` object of an answer what it says about an
/// account, for the mode `stats_type`.
pub fn read_profile(response: &Value, stats_type: StatsType) -> (profile: Profile)
    ensures
        profile@ == profile_model(json_tree(*response), stats_type),
{
    let clan_value = member(response, "clan");
    let clan = if is_object(clan_value) {
        Some(
            ClanEntry {
                tag: text_at(member(clan_value, "tag")),
                tag_color: text_at(member(clan_value, "tag_color")),
            },
        )
    } else {
        None
    };
    let stats = member(response, "stats");
    let bedwars = member(stats, "bedwars");
    Profile {
        first_login: as_i64(member(response, "first_login")),
        last_login: as_i64(member(response, "last_login")),
        rank_color: text_at(member(member(response, "rank_tag"), "color")),
        clan,
        connected: as_bool(member(response, "connected")),
        level: as_i64(member(bedwars, "level")),
        level_badge: text_at(member(member(bedwars, "level_badge"), "format")),
        winstreak: as_i64(counter_at(bedwars, stats_type, Counter::Winstreak)),
        wins: tally_at(bedwars, stats_type, Counter::Wins),
        losses: tally_at(bedwars, stats_type, Counter::Losses),
        kills: tally_at(bedwars, stats_type, Counter::Kills),
        deaths: tally_at(bedwars, stats_type, Counter::Deaths),
        final_kills: tally_at(bedwars, stats_type, Counter::FinalKills),
        final_deaths: tally_at(bedwars, stats_type, Counter::FinalDeaths),
        assists: as_u64(counter_at(bedwars, stats_type, Counter::Assists)),
        play_time: as_u64(member(member(stats, "play_time"), stats_type.play_time_name())),
    }
}

/// The record of an account that the service knows, from the `response`
/// object of its answer; `None` where the object lacks something that the
/// record needs.
pub fn get_player_data(username: String, response: &Value, stats_type: StatsType) -> (player:
    Option<Player>)
    ensures
        match player {
            Some(p) => known_player(username@, profile_model(json_tree(*response), stats_type))
                == Some(p@),
            None => known_player(username@, profile_model(json_tree(*response), stats_type))
                is None,
        },
{
    let profile = read_profile(response, stats_type);
    Player::from_profile(username, &profile, stats_type)
}

/// Why a name of the list yields no record.
#[derive(Debug, Clone, Copy, PartialEq, Eq, Structural)]
pub enum Skip {
    /// The request failed, or its answer could not be read.
    NoAnswer,
    /// The answer is no JSON document.
    NotJson,
    /// The document lacks the success flag, or something that the record of a
    /// known account needs.
    Malformed,
}

/// The record that an answer's document gives for `username`: the record of
/// a nicked player where the document reports no success, else that of the
/// account in its `response` object.
pub open spec fn document_record(username: Seq<char>, document: JsonTree, stats_type: StatsType)
    -> Result<PlayerView, Skip> {
    match document.member("success"@).as_bool() {
        None => Err(Skip::Malformed),
        Some(false) => Ok(nicked_player(username)),
        Some(true) => match known_player(
            username,
            profile_model(document.member("response"@), stats_type),
        ) {
            Some(player) => Ok(player),
            None => Err(Skip::Malformed),
        },
    }
}

/// The record that the text of an answer gives for `username`.
pub open spec fn body_record(username: Seq<char>, body: Seq<char>, stats_type: StatsType)
    -> Result<PlayerView, Skip> {
    match crate::json::json_document(body) {
        Some(document) => document_record(username, document, stats_type),
        None => Err(Skip::NotJson),
    }
}

/// An answer that reports no success gives the record of a nicked player
/// under the name that was asked for, whatever else it holds.
pub proof fn lemma_no_success_is_nicked(
    username: Seq<char>,
    document: JsonTree,
    stats_type: StatsType,
)
    requires
        document.member("success"@) == JsonTree::Bool(false),
    ensures
        document_record(username, document, stats_type) == Ok::<PlayerView, Skip>(
            nicked_player(username),
        ),
        nicked_player(username).is_nicked,
        nicked_player(username).username == username,
{
}

/// Whether `outcome` is the record or the refusal that `model` prescribes.
pub open spec fn agrees(outcome: Result<Player, Skip>, model: Result<PlayerView, Skip>) -> bool {
    match outcome {
        Ok(player) => model == Ok::<PlayerView, Skip>(player@),
        Err(skip) => model == Err::<PlayerView, Skip>(skip),
    }
}

/// The record that an answer's document gives for `username`.
pub fn player_of_document(username: &str, document: &Value, stats_type: StatsType) -> (outcome:
    Result<Player, Skip>)
    ensures
        agrees(outcome, document_record(username@, json_tree(*document), stats_type)),
{
    match as_bool(member(document, "success")) {
        None => Err(Skip::Malformed),
        Some(false) => Ok(Player::new_nicked(String::from_str(username), stats_type)),
        Some(true) => {
            match get_player_data(
                String::from_str(username),
                member(document, "response"),
                stats_type,
            ) {
                Some(player) => Ok(player),
                None => Err(Skip::Malformed),
            }
        },
    }
}

/// The record that the text of an answer gives for `username`.
pub fn player_of_body(username: &str, body: &str, stats_type: StatsType) -> (outcome: Result<
    Player,
    Skip,
>)
    ensures
        agrees(outcome, body_record(username@, body@, stats_type)),
{
    match crate::json::parse_document(body) {
        Some(document) => player_of_document(username, &document, stats_type),
        None => Err(Skip::NotJson),
    }
}

impl Player {
    /// A record of an account that the service knows.
    pub fn new(
        username: String,
        username_color: Rgb,
        clan: Option<String>,
        clan_color: Rgb,
        is_possible_cheater: bool,
        account_creation: i64,
        last_login: i64,
        is_connected: bool,
        stats: Stats,
    ) -> (player: Self)
        ensures
            player == (Player {
                username,
                username_color,
                clan,
                clan_color,
                is_nicked: false,
                is_possible_cheater,
                account_creation,
                last_login,
                is_connected,
                stats,
            }),
    {
        Player {
            username,
            username_color,
            clan,
            clan_color,
            is_nicked: false,
            is_possible_cheater,
            account_creation,
            last_login,
            is_connected,
            stats,
        }
    }

    /// The record of a name that the service does not know.
    pub fn new_nicked(username: String, stats_type: StatsType) -> (player: Self)
        ensures
            player@ == nicked_player(username@),
    {
        let stats = match stats_type {
            StatsType::BedwarsAll
            | StatsType::BedwarsSolo
            | StatsType::BedwarsDoubles
            | StatsType::BedwarsTrios
            | StatsType::BedwarsQuads => Stats::Bedwars(Bedwars::placeholder(NICKED_LEVEL)),
        };
        Player {
            username,
            username_color: Rgb::new(0, 255, 255),
            clan: None,
            clan_color: Rgb::new(0, 0, 0),
            is_nicked: true,
            is_possible_cheater: false,
            stats,
            account_creation: 0,
            last_login: 0,
            is_connected: true,
        }
    }

    /// The record of an account that the service knows, from what its answer
    /// says; `None` where the answer lacks something that the record needs.
    pub fn from_profile(username: String, profile: &Profile, stats_type: StatsType) -> (player:
        Option<Self>)
        ensures
            match player {
                Some(p) => known_player(username@, profile@) == Some(p@),
                None => known_player(username@, profile@) is None,
            },
    {
        let (first, last) = match (profile.first_login, profile.last_login) {
            (Some(first), Some(last)) => (first, last),
            _ => {
                return None;
            },
        };
        let username_color = match &profile.rank_color {
            Some(color) => match Rgb::try_from_hex(color.as_str()) {
                Some(rgb) => rgb,
                None => {
                    return None;
                },
            },
            None => {
                return None;
            },
        };
        let is_connected = match profile.connected {
            Some(flag) => flag,
            None => {
                return None;
            },
        };
        let (clan, clan_color) = match clan_of(&profile.clan) {
            Some(pair) => pair,
            None => {
                return None;
            },
        };
        let suspect = is_possible_cheater(last, first);
        let stats = match stats_type {
            StatsType::BedwarsAll
            | StatsType::BedwarsSolo
            | StatsType::BedwarsDoubles
            | StatsType::BedwarsTrios
            | StatsType::BedwarsQuads => {
                if suspect {
                    Stats::Bedwars(Bedwars::placeholder(SUSPECT_LEVEL))
                } else {
                    match rate_profile(profile) {
                        Some(bedwars) => Stats::Bedwars(bedwars),
                        None => {
                            return None;
                        },
                    }
                }
            },
        };
        Some(
            Player::new(
                username,
                username_color,
                clan,
                clan_color,
                suspect,
                first,
                last,
                is_connected,
                stats,
            ),
        )
    }
}

} // verus!
