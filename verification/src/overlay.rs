//! The state of the overlay, and what each event does to it.
//!
//! The window, the channels and the files belong to the program around this
//! library. It tells the overlay what happened; the overlay changes its
//! state and says what the program is to do.

use crate::chat::{
    classify_notice, joined_player, notice_of, parse_join, parse_room_line, room_players, Notice,
};
use crate::json::{as_bool, as_i64, as_str, as_u64, json_tree, member, JsonTree};
use crate::player::{Player, PlayerView};
use crate::roster::{with_player, without_mentioned, Roster};
use crate::source::{MineClient, MineClientView};
use crate::stats::StatsType;
use crate::text::{same_text, texts_of};
use serde_json::Value;
use vstd::prelude::*;
use vstd::string::*;

verus! {

/// The screens of the overlay.
#[derive(Clone, Copy, Debug, PartialEq, Eq, Structural)]
pub enum Screen {
    Main,
    Settings,
    Welcome,
    Info,
    ViewPlayer,
}

impl Default for Screen {
    fn default() -> (screen: Self)
        ensures
            screen == Screen::Main,
    {
        Screen::Main
    }
}

/// A newer release of the overlay, if one is known.
#[derive(Debug, Clone)]
pub struct Update {
    pub available: bool,
    pub url: String,
}

impl Update {
    /// No release is known.
    pub fn empty() -> (update: Self)
        ensures
            !update.available,
            update.url@ == Seq::<char>::empty(),
    {
        Self { available: false, url: String::new() }
    }
}

/// What the settings file says, with what holds where it says nothing.
pub struct SettingsView {
    pub client: MineClientView,
    pub never_minimize: bool,
    pub seconds_to_minimize: int,
    pub auto_manage_players: bool,
    pub stats_type: StatsType,
}

/// What a settings document says. Where it does not name a client, the
/// default client holds; where it does not say otherwise, the window is
/// minimized ten seconds after a list is loaded, players are added and
/// removed as the chat tells, and the statistics of all modes are shown.
pub open spec fn settings_model(config: JsonTree) -> SettingsView {
    SettingsView {
        client: MineClientView::numbered(
            match config.member("client"@).as_i64() {
                Some(number) => number as int,
                None => 0,
            },
            match config.member("custom_client_path"@).as_text() {
                Some(path) => path,
                None => Seq::empty(),
            },
        ),
        never_minimize: match config.member("never_minimize"@).as_bool() {
            Some(flag) => flag,
            None => false,
        },
        seconds_to_minimize: match config.member("seconds_to_minimize"@).as_u64() {
            Some(seconds) => seconds as int,
            None => 10,
        },
        auto_manage_players: match config.member("auto_manage_players"@).as_bool() {
            Some(flag) => flag,
            None => true,
        },
        stats_type: match config.member("stats_type"@).as_text() {
            Some(name) => StatsType::named(name),
            None => StatsType::BedwarsAll,
        },
    }
}

/// What a line of the log asks the program to do.
#[derive(Debug)]
pub struct LineOutcome {
    /// The names of a room whose statistics are to be fetched as a batch.
    pub fetch: Option<Vec<String>>,
    /// The name of a player who joined, whose statistics are to be fetched.
    pub look_up: Option<String>,
}

/// How the program is to store the choice of a client.
#[derive(Debug)]
pub struct ClientChoice {
    /// The number of the client.
    pub number: i64,
    /// The path to store for a custom client, if the choice brought one.
    pub custom_path: Option<String>,
}

/// The state of the overlay.
#[derive(Debug)]
pub struct KCOverlay {
    pub screen: Screen,
    pub players: Roster,
    /// Whether a list is being loaded.
    pub loading: bool,
    pub client: MineClient,
    /// Whether a batch is under way that an interrupt can end.
    pub fetching: bool,
    pub update: Update,
    pub never_minimize: bool,
    pub seconds_to_minimize: u64,
    pub auto_manage_players: bool,
    pub stats_type: StatsType,
}

/// The notice that the overlay takes from a line: none where it is set not
/// to follow the chat.
pub open spec fn heeded_notice(auto_manage_players: bool, line: Seq<char>) -> Notice {
    if auto_manage_players {
        notice_of(line)
    } else {
        Notice::Nothing
    }
}

/// The players listed after a line was read. The broadcast of a room empties
/// the list, which the batch then fills; a notice that players left or were
/// eliminated takes them off.
pub open spec fn players_after_line(
    players: Seq<PlayerView>,
    auto_manage_players: bool,
    line: Seq<char>,
) -> Seq<PlayerView> {
    if room_players(line) is Some {
        Seq::empty()
    } else {
        match heeded_notice(auto_manage_players, line) {
            Notice::Left => without_mentioned(players, Notice::Left, line),
            Notice::Eliminated => without_mentioned(players, Notice::Eliminated, line),
            _ => players,
        }
    }
}

/// The player to look up after a line was read: the one who joined, if the
/// line is no broadcast and a list is shown that they can join.
pub open spec fn look_up_after_line(
    players: Seq<PlayerView>,
    auto_manage_players: bool,
    line: Seq<char>,
) -> Option<Seq<char>> {
    if room_players(line) is None && heeded_notice(auto_manage_players, line) == Notice::Joined
        && players.len() > 0 {
        joined_player(line)
    } else {
        None
    }
}

impl KCOverlay {
    /// The overlay at its start, from the settings document. On the first
    /// use the welcome screen is shown.
    pub fn new(is_first_use: bool, config: &Value) -> (overlay: Self)
        ensures
            overlay.screen == if is_first_use {
                Screen::Welcome
            } else {
                Screen::Main
            },
            overlay.players@ == Seq::<PlayerView>::empty(),
            !overlay.loading,
            !overlay.fetching,
            !overlay.update.available,
            overlay.client@ == settings_model(json_tree(*config)).client,
            overlay.never_minimize == settings_model(json_tree(*config)).never_minimize,
            overlay.seconds_to_minimize == settings_model(json_tree(*config)).seconds_to_minimize,
            overlay.auto_manage_players == settings_model(json_tree(*config)).auto_manage_players,
            overlay.stats_type == settings_model(json_tree(*config)).stats_type,
    {
        let custom_client_path = match as_str(member(config, "custom_client_path")) {
            Some(path) => String::from_str(path),
            None => String::new(),
        };
        let number = match as_i64(member(config, "client")) {
            Some(number) => number,
            None => 0,
        };
        let never_minimize = match as_bool(member(config, "never_minimize")) {
            Some(flag) => flag,
            None => false,
        };
        let seconds_to_minimize = match as_u64(member(config, "seconds_to_minimize")) {
            Some(seconds) => seconds,
            None => 10,
        };
        let auto_manage_players = match as_bool(member(config, "auto_manage_players")) {
            Some(flag) => flag,
            None => true,
        };
        let stats_type = match as_str(member(config, "stats_type")) {
            Some(name) => StatsType::from_string(name),
            None => StatsType::BedwarsAll,
        };
        KCOverlay {
            screen: if is_first_use {
                Screen::Welcome
            } else {
                Screen::Main
            },
            players: Roster::new(),
            loading: false,
            client: MineClient::from_number(number, custom_client_path),
            fetching: false,
            update: Update::empty(),
            never_minimize,
            seconds_to_minimize,
            auto_manage_players,
            stats_type,
        }
    }

    /// Reads a line of the log.
    ///
    /// The broadcast of a room empties the list and has the statistics of
    /// its players fetched. Else, if the overlay follows the chat: a notice
    /// that players left or were eliminated takes them off the list, and one
    /// that a player joined has that player looked up, if a list is shown.
    pub fn on_line(&mut self, line: &str) -> (outcome: LineOutcome)
        ensures
            match outcome.fetch {
                Some(names) => room_players(line@) == Some(texts_of(names@)),
                None => room_players(line@) is None,
            },
            match outcome.look_up {
                Some(name) => look_up_after_line(
                    old(self).players@,
                    old(self).auto_manage_players,
                    line@,
                ) == Some(name@),
                None => look_up_after_line(
                    old(self).players@,
                    old(self).auto_manage_players,
                    line@,
                ) is None,
            },
            final(self).players@ == players_after_line(
                old(self).players@,
                old(self).auto_manage_players,
                line@,
            ),
            final(self).loading == (old(self).loading || room_players(line@) is Some),
            final(self).screen == old(self).screen,
            final(self).client == old(self).client,
            final(self).fetching == old(self).fetching,
            final(self).update == old(self).update,
            final(self).never_minimize == old(self).never_minimize,
            final(self).seconds_to_minimize == old(self).seconds_to_minimize,
            final(self).auto_manage_players == old(self).auto_manage_players,
            final(self).stats_type == old(self).stats_type,
    {
        let fetch = parse_room_line(line);
        let notice = if self.auto_manage_players {
            classify_notice(line)
        } else {
            Notice::Nothing
        };
        let mut look_up: Option<String> = None;
        if fetch.is_some() {
            self.players.clear();
            self.loading = true;
        } else {
            match notice {
                Notice::Joined => {
                    if !self.players.is_empty() {
                        look_up = parse_join(line);
                    }
                },
                Notice::Left => {
                    self.players.remove_mentioned(Notice::Left, line);
                },
                Notice::Eliminated => {
                    self.players.remove_mentioned(Notice::Eliminated, line);
                },
                Notice::Nothing => {},
            }
        }
        LineOutcome { fetch, look_up }
    }

    /// A batch was started. Says whether the batch that was under way
    /// before it is to be interrupted.
    pub fn on_fetch_started(&mut self) -> (interrupt_previous: bool)
        ensures
            interrupt_previous == old(self).fetching,
            final(self).fetching,
            final(self).players == old(self).players,
            final(self).loading == old(self).loading,
            final(self).screen == old(self).screen,
            final(self).client == old(self).client,
            final(self).update == old(self).update,
            final(self).never_minimize == old(self).never_minimize,
            final(self).seconds_to_minimize == old(self).seconds_to_minimize,
            final(self).auto_manage_players == old(self).auto_manage_players,
            final(self).stats_type == old(self).stats_type,
    {
        let previous = self.fetching;
        self.fetching = true;
        previous
    }

    /// A record came in: the player is put on the list.
    pub fn on_record(&mut self, player: Player)
        ensures
            final(self).players@ == with_player(old(self).players@, player@),
            final(self).loading == old(self).loading,
            final(self).fetching == old(self).fetching,
            final(self).screen == old(self).screen,
            final(self).client == old(self).client,
            final(self).update == old(self).update,
            final(self).never_minimize == old(self).never_minimize,
            final(self).seconds_to_minimize == old(self).seconds_to_minimize,
            final(self).auto_manage_players == old(self).auto_manage_players,
            final(self).stats_type == old(self).stats_type,
    {
        self.players.add(player);
    }

    /// The batch reported that it is done. Says after how many seconds the
    /// program is to ask whether the window can be minimized.
    pub fn on_fetch_done(&mut self) -> (seconds: u64)
        ensures
            seconds == old(self).seconds_to_minimize,
            !final(self).loading,
            !final(self).fetching,
            final(self).players == old(self).players,
            final(self).screen == old(self).screen,
            final(self).client == old(self).client,
            final(self).update == old(self).update,
            final(self).never_minimize == old(self).never_minimize,
            final(self).seconds_to_minimize == old(self).seconds_to_minimize,
            final(self).auto_manage_players == old(self).auto_manage_players,
            final(self).stats_type == old(self).stats_type,
    {
        self.loading = false;
        self.fetching = false;
        self.seconds_to_minimize
    }

    /// Whether the window is to be minimized now: not while a list is being
    /// loaded, and not if the overlay is set never to do so.
    pub fn should_minimize(&self) -> (minimize: bool)
        ensures
            minimize == (!self.loading && !self.never_minimize),
    {
        !self.loading && !self.never_minimize
    }

    /// A client was chosen. A custom client chosen with a blank for its path
    /// takes the path that the settings have stored; another custom client
    /// has its path stored. The welcome screen gives way to the main one.
    pub fn select_client(&mut self, choice: MineClient, stored_custom_path: &str) -> (stored:
        ClientChoice)
        ensures
            final(self).client@ == (match choice@ {
                MineClientView::Custom(path) => if path == " "@ {
                    MineClientView::Custom(stored_custom_path@)
                } else {
                    choice@
                },
                _ => choice@,
            }),
            stored.number == choice@.number(),
            match stored.custom_path {
                Some(path) => choice@ == MineClientView::Custom(path@) && path@ != " "@,
                None => choice@ matches MineClientView::Custom(path) ==> path == " "@,
            },
            final(self).screen == if old(self).screen == Screen::Welcome {
                Screen::Main
            } else {
                old(self).screen
            },
            final(self).players == old(self).players,
            final(self).loading == old(self).loading,
            final(self).fetching == old(self).fetching,
            final(self).update == old(self).update,
            final(self).never_minimize == old(self).never_minimize,
            final(self).seconds_to_minimize == old(self).seconds_to_minimize,
            final(self).auto_manage_players == old(self).auto_manage_players,
            final(self).stats_type == old(self).stats_type,
    {
        let number = choice.number();
        let mut custom_path: Option<String> = None;
        match choice {
            MineClient::Custom(path) => {
                if same_text(path.as_str(), " ") {
                    self.client = MineClient::Custom(String::from_str(stored_custom_path));
                } else {
                    custom_path = Some(path.clone());
                    self.client = MineClient::Custom(path);
                }
            },
            other => {
                self.client = other;
            },
        }
        match self.screen {
            Screen::Welcome => {
                self.screen = Screen::Main;
            },
            _ => {},
        }
        ClientChoice { number, custom_path }
    }

    /// The check for a newer release ended: with the address of one, or with
    /// a reason why none is offered.
    pub fn on_update_checked(&mut self, result: Result<String, String>)
        ensures
            match result {
                Ok(url) => final(self).update.available && final(self).update.url == url,
                Err(_) => final(self).update == old(self).update,
            },
            final(self).players == old(self).players,
            final(self).loading == old(self).loading,
            final(self).fetching == old(self).fetching,
            final(self).screen == old(self).screen,
            final(self).client == old(self).client,
            final(self).never_minimize == old(self).never_minimize,
            final(self).seconds_to_minimize == old(self).seconds_to_minimize,
            final(self).auto_manage_players == old(self).auto_manage_players,
            final(self).stats_type == old(self).stats_type,
    {
        match result {
            Ok(url) => {
                self.update = Update { available: true, url };
            },
            Err(_) => {},
        }
    }

    /// The user asked for the newer release. It is offered no more; its
    /// address is handed out for the program to fetch it.
    pub fn begin_update(&mut self) -> (url: String)
        ensures
            url == old(self).update.url,
            !final(self).update.available,
            final(self).update.url == old(self).update.url,
            final(self).players == old(self).players,
            final(self).loading == old(self).loading,
            final(self).fetching == old(self).fetching,
            final(self).screen == old(self).screen,
            final(self).client == old(self).client,
            final(self).never_minimize == old(self).never_minimize,
            final(self).seconds_to_minimize == old(self).seconds_to_minimize,
            final(self).auto_manage_players == old(self).auto_manage_players,
            final(self).stats_type == old(self).stats_type,
    {
        self.update.available = false;
        self.update.url.clone()
    }
}

} // verus!
