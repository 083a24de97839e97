//! The players shown for a room: ranked by level, the highest first, and no
//! more than fit the window.

use crate::chat::{notice_removes, removes_player, Notice};
use crate::player::{Player, PlayerView};
use crate::stats::{Stats, StatsView};
use vstd::prelude::*;

verus! {

/// How many players are shown at most.
pub const ROSTER_LIMIT: usize = 16;

/// The level by which a player is ranked.
pub open spec fn level_of(player: PlayerView) -> int {
    match player.stats {
        StatsView::Bedwars(bedwars) => bedwars.level,
    }
}

/// Whether the players stand by falling level.
pub open spec fn is_ranked(players: Seq<PlayerView>) -> bool {
    forall|i: int, j: int|
        0 <= i < j < players.len() ==> level_of(#[trigger] players[i]) >= level_of(
            #[trigger] players[j],
        )
}

/// Where a player of the level `level` comes to stand: behind every player
/// of that level or a higher one.
pub open spec fn rank_of(players: Seq<PlayerView>, level: int) -> int
    decreases players.len(),
{
    if players.len() == 0 {
        0
    } else if level_of(players.last()) >= level {
        players.len() as int
    } else {
        rank_of(players.drop_last(), level)
    }
}

/// The list with one more player, ranked, cut to the sixteen highest. Among
/// players of one level, who came first stands first.
pub open spec fn with_player(players: Seq<PlayerView>, player: PlayerView) -> Seq<PlayerView> {
    let ranked = players.insert(rank_of(players, level_of(player)), player);
    if ranked.len() > ROSTER_LIMIT {
        ranked.take(ROSTER_LIMIT as int)
    } else {
        ranked
    }
}

/// The list without the players that a notice is about.
pub open spec fn without_mentioned(players: Seq<PlayerView>, notice: Notice, line: Seq<char>)
    -> Seq<PlayerView> {
    players.filter(|player: PlayerView| !removes_player(notice, line, player.username))
}

/// In a ranked list, the rank of a level has the players of that level or a
/// higher one before it and the lower ones behind it.
pub proof fn lemma_rank_of(players: Seq<PlayerView>, level: int)
    requires
        is_ranked(players),
    ensures
        0 <= rank_of(players, level) <= players.len(),
        forall|i: int|
            0 <= i < rank_of(players, level) ==> level_of(#[trigger] players[i]) >= level,
        forall|i: int|
            rank_of(players, level) <= i < players.len() ==> level_of(#[trigger] players[i])
                < level,
    decreases players.len(),
{
    if players.len() > 0 {
        let last = players.len() - 1;
        if level_of(players.last()) >= level {
            assert forall|i: int| 0 <= i < players.len() implies level_of(#[trigger] players[i])
                >= level by {
                if i < last {
                    assert(level_of(players[i]) >= level_of(players[last]));
                }
            }
        } else {
            let shorter = players.drop_last();
            assert forall|i: int, j: int| 0 <= i < j < shorter.len() implies level_of(
                #[trigger] shorter[i],
            ) >= level_of(#[trigger] shorter[j]) by {
                assert(shorter[i] == players[i]);
                assert(shorter[j] == players[j]);
            }
            lemma_rank_of(shorter, level);
            assert forall|i: int| 0 <= i < rank_of(players, level) implies level_of(
                #[trigger] players[i],
            ) >= level by {
                assert(shorter[i] == players[i]);
            }
            assert forall|i: int| rank_of(players, level) <= i < players.len() implies level_of(
                #[trigger] players[i],
            ) < level by {
                if i < last {
                    assert(shorter[i] == players[i]);
                }
            }
        }
    }
}

/// Adding a player keeps the list ranked and within its limit. Before the
/// cut the list holds the players it held and the new one, and no other.
pub proof fn lemma_with_player(players: Seq<PlayerView>, player: PlayerView)
    requires
        is_ranked(players),
    ensures
        is_ranked(with_player(players, player)),
        with_player(players, player).len() <= ROSTER_LIMIT,
        with_player(players, player).len() <= players.len() + 1,
        players.len() < ROSTER_LIMIT ==> with_player(players, player).to_multiset()
            == players.to_multiset().insert(player),
{
    let at = rank_of(players, level_of(player));
    lemma_rank_of(players, level_of(player));
    let ranked = players.insert(at, player);
    assert forall|i: int, j: int| 0 <= i < j < ranked.len() implies level_of(
        #[trigger] ranked[i],
    ) >= level_of(#[trigger] ranked[j]) by {
        if i < at {
            assert(ranked[i] == players[i]);
        } else if i > at {
            assert(ranked[i] == players[i - 1]);
        }
        if j < at {
            assert(ranked[j] == players[j]);
        } else if j > at {
            assert(ranked[j] == players[j - 1]);
        }
    }
    if players.len() < ROSTER_LIMIT {
        vstd::seq_lib::to_multiset_insert(players, at, player);
    }
    let shown = with_player(players, player);
    assert forall|i: int, j: int| 0 <= i < j < shown.len() implies level_of(#[trigger] shown[i])
        >= level_of(#[trigger] shown[j]) by {
        assert(shown[i] == ranked[i]);
        assert(shown[j] == ranked[j]);
    }
}

/// Taking a player out keeps the list ranked.
pub proof fn lemma_remove_keeps_ranked(players: Seq<PlayerView>, at: int)
    requires
        is_ranked(players),
        0 <= at < players.len(),
    ensures
        is_ranked(players.remove(at)),
{
    let rest = players.remove(at);
    assert forall|i: int, j: int| 0 <= i < j < rest.len() implies level_of(#[trigger] rest[i])
        >= level_of(#[trigger] rest[j]) by {
        let a = if i < at { i } else { i + 1 };
        let b = if j < at { j } else { j + 1 };
        assert(rest[i] == players[a]);
        assert(rest[j] == players[b]);
    }
}

/// The views of the players of a list.
pub open spec fn views_of(players: Seq<Player>) -> Seq<PlayerView> {
    players.map_values(|player: Player| player@)
}

/// The players shown for a room.
#[derive(Debug)]
pub struct Roster {
    players: Vec<Player>,
}

impl View for Roster {
    type V = Seq<PlayerView>;

    closed spec fn view(&self) -> Seq<PlayerView> {
        views_of(self.players@)
    }
}

fn level_of_player(player: &Player) -> (level: i32)
    ensures
        level == level_of(player@),
{
    match &player.stats {
        Stats::Bedwars(bedwars) => bedwars.level,
    }
}

impl Roster {
    #[verifier::type_invariant]
    spec fn ranked_within_limit(self) -> bool {
        is_ranked(views_of(self.players@)) && self.players@.len() <= ROSTER_LIMIT
    }

    /// An empty list.
    pub fn new() -> (roster: Self)
        ensures
            roster@ == Seq::<PlayerView>::empty(),
    {
        let players: Vec<Player> = Vec::new();
        assert(views_of(players@) =~= Seq::<PlayerView>::empty());
        Roster { players }
    }

    /// How many players are listed: sixteen at most.
    pub fn len(&self) -> (n: usize)
        ensures
            n == self@.len(),
            n <= ROSTER_LIMIT,
            is_ranked(self@),
    {
        proof {
            use_type_invariant(self);
        }
        self.players.len()
    }

    /// Whether nobody is listed.
    pub fn is_empty(&self) -> (empty: bool)
        ensures
            empty == (self@.len() == 0),
    {
        self.players.len() == 0
    }

    /// The players, the highest level first.
    pub fn players(&self) -> (players: &Vec<Player>)
        ensures
            views_of(players@) == self@,
            is_ranked(self@),
            players@.len() <= ROSTER_LIMIT,
    {
        proof {
            use_type_invariant(self);
        }
        &self.players
    }

    /// Takes everybody off the list.
    pub fn clear(&mut self)
        ensures
            final(self)@ == Seq::<PlayerView>::empty(),
    {
        let players: Vec<Player> = Vec::new();
        assert(views_of(players@) =~= Seq::<PlayerView>::empty());
        self.players = players;
    }

    /// Puts a player on the list, behind those of the same level or a higher
    /// one. If the list then is over its limit, the last player leaves it.
    pub fn add(&mut self, player: Player)
        ensures
            is_ranked(old(self)@),
            final(self)@ == with_player(old(self)@, player@),
    {
        proof {
            use_type_invariant(&*self);
        }
        let mut players: Vec<Player> = Vec::new();
        assert(views_of(players@) =~= Seq::<PlayerView>::empty());
        std::mem::swap(&mut players, &mut self.players);
        let ghost before = views_of(players@);
        let level = level_of_player(&player);
        let mut at: usize = players.len();
        assert(before.take(at as int) =~= before);
        while at > 0 && level_of_player(&players[at - 1]) < level
            invariant
                at <= players.len(),
                views_of(players@) == before,
                level == level_of(player@),
                rank_of(before, level as int) == rank_of(before.take(at as int), level as int),
            decreases at,
        {
            assert(before.take(at as int).drop_last() =~= before.take(at - 1));
            assert(before.take(at as int).last() == players@[at - 1]@);
            at -= 1;
        }
        proof {
            if at > 0 {
                assert(before.take(at as int).last() == players@[at - 1]@);
            }
            assert(rank_of(before, level as int) == at);
            lemma_with_player(before, player@);
        }
        let ghost listed = players@;
        players.insert(at, player);
        assert(views_of(players@) =~= before.insert(at as int, player@));
        if players.len() > ROSTER_LIMIT {
            let ghost longer = players@;
            players.truncate(ROSTER_LIMIT);
            assert(views_of(players@) =~= views_of(longer).take(ROSTER_LIMIT as int));
        }
        self.players = players;
    }

    /// Takes off the list the players that a notice is about.
    pub fn remove_mentioned(&mut self, notice: Notice, line: &str)
        ensures
            final(self)@ == without_mentioned(old(self)@, notice, line@),
    {
        proof {
            use_type_invariant(&*self);
        }
        let mut players: Vec<Player> = Vec::new();
        assert(views_of(players@) =~= Seq::<PlayerView>::empty());
        std::mem::swap(&mut players, &mut self.players);
        let ghost before = views_of(players@);
        let ghost keep = |player: PlayerView| !removes_player(notice, line@, player.username);
        let ghost mut seen: int = 0;
        let mut i: usize = 0;
        proof {
            reveal(Seq::filter);
            assert(before.take(0).filter(keep) =~= Seq::<PlayerView>::empty());
            assert(views_of(players@).take(0) =~= Seq::<PlayerView>::empty());
            assert(before.skip(0) =~= before);
            assert(views_of(players@).skip(0) =~= views_of(players@));
        }
        while i < players.len()
            invariant
                i <= players.len(),
                players@.len() <= ROSTER_LIMIT,
                0 <= seen <= before.len(),
                keep == |player: PlayerView| !removes_player(notice, line@, player.username),
                is_ranked(views_of(players@)),
                views_of(players@).take(i as int) == before.take(seen).filter(keep),
                views_of(players@).skip(i as int) == before.skip(seen),
            decreases players.len() - i,
        {
            let ghost current = views_of(players@);
            proof {
                assert(current.skip(i as int)[0] == before.skip(seen)[0]);
                assert(seen < before.len()) by {
                    assert(current.skip(i as int).len() == before.skip(seen).len());
                }
                crate::text::lemma_filter_take_step(before, keep, seen);
            }
            if notice_removes(notice, line, players[i].username.as_str()) {
                proof {
                    lemma_remove_keeps_ranked(current, i as int);
                }
                players.remove(i);
                proof {
                    assert(views_of(players@) =~= current.remove(i as int));
                    assert(views_of(players@).take(i as int) =~= current.take(i as int));
                    assert(views_of(players@).skip(i as int) =~= current.skip(i as int).skip(1));
                    assert(before.skip(seen).skip(1) =~= before.skip(seen + 1));
                    seen = seen + 1;
                }
            } else {
                proof {
                    assert(current.take(i + 1) =~= current.take(i as int).push(current[i as int]));
                    assert(current.skip(i + 1) =~= current.skip(i as int).skip(1));
                    assert(before.skip(seen).skip(1) =~= before.skip(seen + 1));
                    seen = seen + 1;
                }
                i += 1;
            }
        }
        proof {
            assert(views_of(players@).take(i as int) =~= views_of(players@));
            assert(before.skip(seen).len() == 0);
            assert(before.take(seen) =~= before);
        }
        self.players = players;
    }
}

} // verus!
