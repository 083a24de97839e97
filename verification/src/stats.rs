//! Game-mode statistics of a player, and the names under which the
//! statistics service files them.

use crate::color::Rgb;
use crate::text::same_text;
use vstd::prelude::*;
use vstd::string::*;

verus! {

/// The quotient that a pair of counts stands for: `numerator / denominator`,
/// and zero where the denominator is zero. The second component is never zero.
pub open spec fn quotient(numerator: int, denominator: int) -> (int, int) {
    if denominator == 0 {
        (0, 1)
    } else {
        (numerator, denominator)
    }
}

/// A ratio of two counts, kept exactly as numerator and denominator.
///
/// A division by zero is settled when the ratio is made: it gives zero. So
/// every ratio is a finite number.
#[derive(Debug, Clone, Copy, PartialEq, Eq, Structural)]
pub struct Ratio {
    numerator: i64,
    denominator: i64,
}

impl Ratio {
    #[verifier::type_invariant]
    spec fn nonzero_denominator(self) -> bool {
        self.denominator != 0
    }

    /// Numerator and denominator.
    pub closed spec fn parts(self) -> (int, int) {
        (self.numerator as int, self.denominator as int)
    }

    /// `numerator / denominator`, and zero where `denominator` is zero.
    pub fn new(numerator: i64, denominator: i64) -> (r: Self)
        ensures
            r.parts() == quotient(numerator as int, denominator as int),
    {
        if denominator == 0 {
            Ratio { numerator: 0, denominator: 1 }
        } else {
            Ratio { numerator, denominator }
        }
    }

    /// The ratio zero.
    pub fn zero() -> (r: Self)
        ensures
            r.parts() == (0int, 1int),
    {
        Ratio { numerator: 0, denominator: 1 }
    }

    /// The numerator.
    pub fn numerator(&self) -> (n: i64)
        ensures
            n == self.parts().0,
    {
        self.numerator
    }

    /// The denominator, which is never zero.
    pub fn denominator(&self) -> (d: i64)
        ensures
            d == self.parts().1,
            d != 0,
    {
        proof {
            use_type_invariant(self);
        }
        self.denominator
    }

    /// Whether the ratio is zero.
    pub fn is_zero(&self) -> (z: bool)
        ensures
            z == (self.parts().0 == 0),
    {
        self.numerator == 0
    }

    /// Two ratios with the same parts are the same ratio.
    pub proof fn lemma_parts_determine(self, other: Ratio)
        requires
            self.parts() == other.parts(),
        ensures
            self == other,
    {
    }
}

/// A ratio of counts is always a finite number: its denominator is not zero,
/// and with no losses (a zero denominator) the ratio is zero.
pub proof fn lemma_quotient_is_finite(numerator: int, denominator: int)
    ensures
        quotient(numerator, denominator).1 != 0,
        denominator == 0 ==> quotient(numerator, denominator) == (0int, 1int),
        denominator != 0 ==> quotient(numerator, denominator) == (numerator, denominator),
{
}

/// Bedwars statistics of one player, in one mode.
#[derive(Debug, Clone, Copy, PartialEq, Eq, Structural)]
pub struct Bedwars {
    pub level: i32,
    pub level_symbol: char,
    pub winstreak: i32,
    pub winrate: Ratio,
    pub final_kill_death_ratio: Ratio,
    pub kill_death_ratio: Ratio,
    pub level_color: Rgb,
    pub wins: u64,
    pub losses: u64,
    pub kills: u64,
    pub deaths: u64,
    pub final_kills: u64,
    pub final_deaths: u64,
    pub hours_played: u64,
    pub assists: u64,
}

/// The level shown for a player whose name the service does not know.
pub const NICKED_LEVEL: i32 = 999;

/// The level shown for a player taken for a possible cheater.
pub const SUSPECT_LEVEL: i32 = 998;

/// The badge shown with a placeholder level.
pub const PLACEHOLDER_SYMBOL: char = '?';

/// Bedwars statistics as plain numbers: each ratio as numerator and
/// denominator, the colour as its three channels.
pub struct BedwarsView {
    pub level: int,
    pub level_symbol: char,
    pub winstreak: int,
    pub winrate: (int, int),
    pub final_kill_death_ratio: (int, int),
    pub kill_death_ratio: (int, int),
    pub level_color: (int, int, int),
    pub wins: int,
    pub losses: int,
    pub kills: int,
    pub deaths: int,
    pub final_kills: int,
    pub final_deaths: int,
    pub hours_played: int,
    pub assists: int,
}

/// Placeholder statistics under `level`: the `?` badge in cyan, and zero
/// everywhere else.
pub open spec fn placeholder_view(level: int) -> BedwarsView {
    BedwarsView {
        level,
        level_symbol: PLACEHOLDER_SYMBOL,
        winstreak: 0,
        winrate: (0, 1),
        final_kill_death_ratio: (0, 1),
        kill_death_ratio: (0, 1),
        level_color: (0, 255, 255),
        wins: 0,
        losses: 0,
        kills: 0,
        deaths: 0,
        final_kills: 0,
        final_deaths: 0,
        hours_played: 0,
        assists: 0,
    }
}

impl View for Bedwars {
    type V = BedwarsView;

    open spec fn view(&self) -> BedwarsView {
        BedwarsView {
            level: self.level as int,
            level_symbol: self.level_symbol,
            winstreak: self.winstreak as int,
            winrate: self.winrate.parts(),
            final_kill_death_ratio: self.final_kill_death_ratio.parts(),
            kill_death_ratio: self.kill_death_ratio.parts(),
            level_color: self.level_color.channels(),
            wins: self.wins as int,
            losses: self.losses as int,
            kills: self.kills as int,
            deaths: self.deaths as int,
            final_kills: self.final_kills as int,
            final_deaths: self.final_deaths as int,
            hours_played: self.hours_played as int,
            assists: self.assists as int,
        }
    }
}

impl Bedwars {
    /// Placeholder statistics under `level`.
    pub fn placeholder(level: i32) -> (b: Self)
        ensures
            b@ == placeholder_view(level as int),
    {
        Bedwars {
            level,
            level_symbol: PLACEHOLDER_SYMBOL,
            winstreak: 0,
            winrate: Ratio::zero(),
            final_kill_death_ratio: Ratio::zero(),
            kill_death_ratio: Ratio::zero(),
            level_color: Rgb::new(0, 255, 255),
            wins: 0,
            losses: 0,
            kills: 0,
            deaths: 0,
            final_kills: 0,
            final_deaths: 0,
            hours_played: 0,
            assists: 0,
        }
    }

    /// Statistics with the same view are the same statistics.
    pub proof fn lemma_view_determines(self, other: Bedwars)
        requires
            self@ == other@,
        ensures
            self == other,
    {
        self.level_color.lemma_channels_determine(other.level_color);
        self.winrate.lemma_parts_determine(other.winrate);
        self.final_kill_death_ratio.lemma_parts_determine(other.final_kill_death_ratio);
        self.kill_death_ratio.lemma_parts_determine(other.kill_death_ratio);
    }
}

/// Statistics of a player, by game.
#[derive(Debug, Clone, Copy, PartialEq, Eq, Structural)]
pub enum Stats {
    Bedwars(Bedwars),
}

/// Statistics as plain numbers, by game.
pub enum StatsView {
    Bedwars(BedwarsView),
}

impl View for Stats {
    type V = StatsView;

    open spec fn view(&self) -> StatsView {
        match self {
            Stats::Bedwars(bedwars) => StatsView::Bedwars(bedwars@),
        }
    }
}

/// The game mode whose statistics are shown.
#[derive(Debug, Clone, Copy, PartialEq, Eq, Structural)]
pub enum StatsType {
    BedwarsAll,
    BedwarsSolo,
    BedwarsDoubles,
    BedwarsTrios,
    BedwarsQuads,
}

/// A counter that the service keeps once for each mode.
#[derive(Debug, Clone, Copy, PartialEq, Eq, Structural)]
pub enum Counter {
    Winstreak,
    Wins,
    Losses,
    Kills,
    Deaths,
    FinalKills,
    FinalDeaths,
    Assists,
}

impl Counter {
    /// The counter's name without the prefix of a mode.
    pub open spec fn base_name(self) -> Seq<char> {
        match self {
            Counter::Winstreak => "winstreak"@,
            Counter::Wins => "wins"@,
            Counter::Losses => "losses"@,
            Counter::Kills => "kills"@,
            Counter::Deaths => "deaths"@,
            Counter::FinalKills => "final_kills"@,
            Counter::FinalDeaths => "final_deaths"@,
            Counter::Assists => "assists"@,
        }
    }

    fn name(&self) -> (r: &'static str)
        ensures
            r@ == self.base_name(),
    {
        match self {
            Counter::Winstreak => "winstreak",
            Counter::Wins => "wins",
            Counter::Losses => "losses",
            Counter::Kills => "kills",
            Counter::Deaths => "deaths",
            Counter::FinalKills => "final_kills",
            Counter::FinalDeaths => "final_deaths",
            Counter::Assists => "assists",
        }
    }
}

impl Default for StatsType {
    fn default() -> (r: Self)
        ensures
            r == StatsType::BedwarsAll,
    {
        StatsType::BedwarsAll
    }
}

impl StatsType {
    /// The mode's name as the settings show and store it.
    pub open spec fn label(self) -> Seq<char> {
        match self {
            StatsType::BedwarsAll => "Bedwars Geral"@,
            StatsType::BedwarsSolo => "Bedwars Solo"@,
            StatsType::BedwarsDoubles => "Bedwars Duplas"@,
            StatsType::BedwarsTrios => "Bedwars Trios"@,
            StatsType::BedwarsQuads => "Bedwars Quartetos"@,
        }
    }

    /// The mode that a name stands for; a name of no mode stands for all modes.
    pub open spec fn named(name: Seq<char>) -> StatsType {
        if name == StatsType::BedwarsSolo.label() {
            StatsType::BedwarsSolo
        } else if name == StatsType::BedwarsDoubles.label() {
            StatsType::BedwarsDoubles
        } else if name == StatsType::BedwarsTrios.label() {
            StatsType::BedwarsTrios
        } else if name == StatsType::BedwarsQuads.label() {
            StatsType::BedwarsQuads
        } else {
            StatsType::BedwarsAll
        }
    }

    /// What the service puts before a counter's name for this mode.
    pub open spec fn key_prefix(self) -> Seq<char> {
        match self {
            StatsType::BedwarsAll => ""@,
            StatsType::BedwarsSolo => "solo_"@,
            StatsType::BedwarsDoubles => "doubles_"@,
            StatsType::BedwarsTrios => "3v3v3v3_"@,
            StatsType::BedwarsQuads => "4v4v4v4_"@,
        }
    }

    /// The name under which the service files a counter of this mode.
    pub open spec fn counter_key(self, counter: Counter) -> Seq<char> {
        self.key_prefix() + counter.base_name()
    }

    /// The name under which the service files the seconds played in this mode.
    pub open spec fn play_time_key(self) -> Seq<char> {
        match self {
            StatsType::BedwarsAll => "bedwars"@,
            StatsType::BedwarsSolo => "bedwars_solo"@,
            StatsType::BedwarsDoubles => "bedwars_doubles"@,
            StatsType::BedwarsTrios => "bedwars_3v3v3v3"@,
            StatsType::BedwarsQuads => "bedwars_4v4v4v4"@,
        }
    }

    /// The mode that a name stands for; a name of no mode stands for all modes.
    pub fn from_string(string: &str) -> (r: Self)
        ensures
            r == StatsType::named(string@),
    {
        if same_text(string, "Bedwars Solo") {
            StatsType::BedwarsSolo
        } else if same_text(string, "Bedwars Duplas") {
            StatsType::BedwarsDoubles
        } else if same_text(string, "Bedwars Trios") {
            StatsType::BedwarsTrios
        } else if same_text(string, "Bedwars Quartetos") {
            StatsType::BedwarsQuads
        } else {
            StatsType::BedwarsAll
        }
    }

    /// Every mode, in the order in which the settings list them.
    pub fn get_stats_list() -> (list: Vec<StatsType>)
        ensures
            list@ == seq![
                StatsType::BedwarsAll,
                StatsType::BedwarsSolo,
                StatsType::BedwarsDoubles,
                StatsType::BedwarsTrios,
                StatsType::BedwarsQuads,
            ],
    {
        let mut list: Vec<StatsType> = Vec::new();
        list.push(StatsType::BedwarsAll);
        list.push(StatsType::BedwarsSolo);
        list.push(StatsType::BedwarsDoubles);
        list.push(StatsType::BedwarsTrios);
        list.push(StatsType::BedwarsQuads);
        assert(list@ =~= seq![
            StatsType::BedwarsAll,
            StatsType::BedwarsSolo,
            StatsType::BedwarsDoubles,
            StatsType::BedwarsTrios,
            StatsType::BedwarsQuads,
        ]);
        list
    }

    /// The mode's name as the settings show and store it.
    pub fn name(&self) -> (r: &'static str)
        ensures
            r@ == self.label(),
    {
        match self {
            StatsType::BedwarsAll => "Bedwars Geral",
            StatsType::BedwarsSolo => "Bedwars Solo",
            StatsType::BedwarsDoubles => "Bedwars Duplas",
            StatsType::BedwarsTrios => "Bedwars Trios",
            StatsType::BedwarsQuads => "Bedwars Quartetos",
        }
    }

    /// The mode's name as an owned string.
    pub fn to_string(&self) -> (r: String)
        ensures
            r@ == self.label(),
    {
        String::from_str(self.name())
    }

    fn prefix(&self) -> (r: &'static str)
        ensures
            r@ == self.key_prefix(),
    {
        match self {
            StatsType::BedwarsAll => "",
            StatsType::BedwarsSolo => "solo_",
            StatsType::BedwarsDoubles => "doubles_",
            StatsType::BedwarsTrios => "3v3v3v3_",
            StatsType::BedwarsQuads => "4v4v4v4_",
        }
    }

    /// The name under which the service files `counter` for this mode.
    pub fn key_of(&self, counter: Counter) -> (key: String)
        ensures
            key@ == self.counter_key(counter),
    {
        String::from_str(self.prefix()).concat(counter.name())
    }

    /// The name under which the service files the seconds played in this mode.
    pub fn play_time_name(&self) -> (key: &'static str)
        ensures
            key@ == self.play_time_key(),
    {
        match self {
            StatsType::BedwarsAll => "bedwars",
            StatsType::BedwarsSolo => "bedwars_solo",
            StatsType::BedwarsDoubles => "bedwars_doubles",
            StatsType::BedwarsTrios => "bedwars_3v3v3v3",
            StatsType::BedwarsQuads => "bedwars_4v4v4v4",
        }
    }

    /// The five labels are pairwise different, so a mode is found again from
    /// its own label.
    pub proof fn lemma_named_inverts_label(self)
        ensures
            StatsType::named(self.label()) == self,
    {
        reveal_strlit("Bedwars Geral");
        reveal_strlit("Bedwars Solo");
        reveal_strlit("Bedwars Duplas");
        reveal_strlit("Bedwars Trios");
        reveal_strlit("Bedwars Quartetos");
        assert("Bedwars Geral"@.len() == 13);
        assert("Bedwars Solo"@.len() == 12);
        assert("Bedwars Duplas"@.len() == 14);
        assert("Bedwars Trios"@.len() == 13);
        assert("Bedwars Quartetos"@.len() == 17);
        assert("Bedwars Geral"@[8] == 'G');
        assert("Bedwars Trios"@[8] == 'T');
    }
}

} // verus!
