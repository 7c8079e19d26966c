//! The room record: the data of one room, kept well formed.
//!
//! A `Game` can only be made by [`Game::new`] or [`Game::from_parts`], which
//! both check the invariant, and is only changed by the transitions of the
//! lifecycle, which preserve it. Its fields can be read, never set.

use vstd::prelude::*;
use crate::error::GameError;
use crate::escrow::{MAX_ENTRY_FEE, MAX_PLAYERS};
use crate::identity::Identity;
use crate::model::{
    lemma_stakes_fit,
    no_scores,
    no_winners,
    valid_configuration,
    GameStatus,
    GameView,
};

verus! {

/// One room: its configuration, its players, its pool and its result.
#[derive(Clone, Debug, PartialEq, Eq)]
pub struct Game {
    game_id: u64,
    entry_fee: u64,
    max_players: u8,
    status: GameStatus,
    total_pool: u64,
    authority: Identity,
    players: Vec<Identity>,
    winners: [Option<Identity>; 3],
    final_scores: [u32; 3],
}

impl View for Game {
    type V = GameView;

    closed spec fn view(&self) -> GameView {
        GameView {
            game_id: self.game_id,
            entry_fee: self.entry_fee as nat,
            max_players: self.max_players as nat,
            status: self.status,
            total_pool: self.total_pool as nat,
            authority: self.authority,
            players: self.players@,
            winners: self.winners@,
            final_scores: self.final_scores@,
        }
    }
}

/// Whether `player` is among the first `end` of `players`.
fn listed_before(players: &Vec<Identity>, end: usize, player: &Identity) -> (found: bool)
    requires
        end <= players.len(),
    ensures
        found == players@.take(end as int).contains(*player),
{
    let mut i: usize = 0;
    while i < end
        invariant
            i <= end <= players.len(),
            !players@.take(i as int).contains(*player),
        decreases end - i,
    {
        if players[i] == *player {
            proof {
                assert(players@.take(end as int)[i as int] == *player);
            }
            return true;
        }
        proof {
            let shorter = players@.take(i as int);
            let longer = players@.take(i + 1);
            assert forall|k: int| 0 <= k < longer.len() implies longer[k] != *player by {
                if k < i {
                    assert(shorter[k] == longer[k]);
                    assert(shorter.contains(shorter[k]));
                }
            }
        }
        i += 1;
    }
    false
}

/// Whether no identity occurs twice in `players`.
fn all_distinct(players: &Vec<Identity>) -> (distinct: bool)
    ensures
        distinct == players@.no_duplicates(),
{
    let mut i: usize = 0;
    while i < players.len()
        invariant
            i <= players.len(),
            players@.take(i as int).no_duplicates(),
        decreases players.len() - i,
    {
        if listed_before(players, i, &players[i]) {
            proof {
                let k = choose|k: int|
                    0 <= k < i && players@.take(i as int)[k] == players@[i as int];
                assert(players@[k] == players@[i as int]);
            }
            return false;
        }
        proof {
            let shorter = players@.take(i as int);
            let longer = players@.take(i + 1);
            assert forall|a: int, b: int|
                0 <= a < longer.len() && 0 <= b < longer.len() && a != b implies longer[a]
                != longer[b] by {
                if a < i && b < i {
                    assert(shorter[a] != shorter[b]);
                } else if a < i {
                    assert(shorter.contains(shorter[a]));
                } else {
                    assert(shorter.contains(shorter[b]));
                }
            }
        }
        i += 1;
    }
    proof {
        assert(players@.take(players.len() as int) =~= players@);
    }
    true
}

impl Game {
    /// Whether the room satisfies the invariant of rooms.
    pub open spec fn wf(&self) -> bool {
        self@.wf()
    }

    /// The room that these parts make up.
    pub open spec fn assembled(
        game_id: u64,
        entry_fee: u64,
        max_players: u8,
        status: GameStatus,
        total_pool: u64,
        authority: Identity,
        players: Seq<Identity>,
        winners: Seq<Option<Identity>>,
        final_scores: Seq<u32>,
    ) -> GameView {
        GameView {
            game_id,
            entry_fee: entry_fee as nat,
            max_players: max_players as nat,
            status,
            total_pool: total_pool as nat,
            authority,
            players,
            winners,
            final_scores,
        }
    }

    /// Makes a new room: waiting, without players, with an empty pool.
    ///
    /// Fails with `InvalidConfiguration` exactly when the room would have no
    /// seat or more than `MAX_PLAYERS`, or when the entry fee is zero or
    /// above `MAX_ENTRY_FEE`.
    pub fn new(game_id: u64, entry_fee: u64, max_players: u8, authority: Identity) -> (made: Result<
        Game,
        GameError,
    >)
        ensures
            match made {
                Ok(game) => {
                    &&& valid_configuration(entry_fee as nat, max_players as nat)
                    &&& game.wf()
                    &&& game@ == GameView::fresh(
                        game_id,
                        entry_fee as nat,
                        max_players as nat,
                        authority,
                    )
                },
                Err(e) => {
                    &&& !valid_configuration(entry_fee as nat, max_players as nat)
                    &&& e == GameError::InvalidConfiguration
                },
            },
    {
        if max_players == 0 || max_players > MAX_PLAYERS || entry_fee == 0 || entry_fee
            > MAX_ENTRY_FEE {
            return Err(GameError::InvalidConfiguration);
        }
        let game = Game {
            game_id,
            entry_fee,
            max_players,
            status: GameStatus::Waiting,
            total_pool: 0,
            authority,
            players: Vec::new(),
            winners: [None, None, None],
            final_scores: [0, 0, 0],
        };
        proof {
            assert(game.winners@ =~= no_winners());
            assert(game.final_scores@ =~= no_scores());
            assert(game@.players =~= Seq::empty());
        }
        Ok(game)
    }

    /// Puts a room together from its stored parts, if they make up a well
    /// formed room; `None` if they do not.
    pub fn from_parts(
        game_id: u64,
        entry_fee: u64,
        max_players: u8,
        status: GameStatus,
        total_pool: u64,
        authority: Identity,
        players: Vec<Identity>,
        winners: [Option<Identity>; 3],
        final_scores: [u32; 3],
    ) -> (made: Option<Game>)
        ensures
            match made {
                Some(game) => {
                    &&& game.wf()
                    &&& game@ == Game::assembled(
                        game_id,
                        entry_fee,
                        max_players,
                        status,
                        total_pool,
                        authority,
                        players@,
                        winners@,
                        final_scores@,
                    )
                },
                None => !Game::assembled(
                    game_id,
                    entry_fee,
                    max_players,
                    status,
                    total_pool,
                    authority,
                    players@,
                    winners@,
                    final_scores@,
                ).wf(),
            },
    {
        if max_players == 0 || max_players > MAX_PLAYERS || entry_fee == 0 || entry_fee
            > MAX_ENTRY_FEE {
            return None;
        }
        if players.len() > max_players as usize {
            return None;
        }
        if !all_distinct(&players) {
            return None;
        }
        proof {
            lemma_stakes_fit(players@.len(), max_players as nat, entry_fee as nat);
        }
        let stakes: u64 = players.len() as u64 * entry_fee;
        let expected: u64 = match status {
            GameStatus::Cancelled => 0,
            _ => stakes,
        };
        if total_pool != expected {
            return None;
        }
        let settled = match status {
            GameStatus::Finished => true,
            _ => false,
        };
        if !settled {
            let blank = winners[0].is_none() && winners[1].is_none() && winners[2].is_none()
                && final_scores[0] == 0 && final_scores[1] == 0 && final_scores[2] == 0;
            proof {
                if blank {
                    assert(winners@ =~= no_winners());
                    assert(final_scores@ =~= no_scores());
                } else {
                    assert(no_winners()[0] is None && no_winners()[1] is None && no_winners()[2] is None);
                    assert(no_scores()[0] == 0 && no_scores()[1] == 0 && no_scores()[2] == 0);
                }
            }
            if !blank {
                return None;
            }
        }
        Some(
            Game {
                game_id,
                entry_fee,
                max_players,
                status,
                total_pool,
                authority,
                players,
                winners,
                final_scores,
            },
        )
    }

    /// The id under which the room is kept.
    pub fn game_id(&self) -> (id: u64)
        ensures
            id == self@.game_id,
    {
        self.game_id
    }

    /// What each player pays to join.
    pub fn entry_fee(&self) -> (fee: u64)
        ensures
            fee == self@.entry_fee,
    {
        self.entry_fee
    }

    /// The number of seats.
    pub fn max_players(&self) -> (seats: u8)
        ensures
            seats == self@.max_players,
    {
        self.max_players
    }

    /// The number of players who have joined.
    pub fn current_players(&self) -> (count: u8)
        requires
            self.wf(),
        ensures
            count == self@.current_players(),
    {
        self.players.len() as u8
    }

    /// Where the room stands in its lifecycle.
    pub fn status(&self) -> (status: GameStatus)
        ensures
            status == self@.status,
    {
        self.status
    }

    /// The value held in escrow for the room.
    pub fn total_pool(&self) -> (pool: u64)
        ensures
            pool == self@.total_pool,
    {
        self.total_pool
    }

    /// The identity that may settle or cancel the room.
    pub fn authority(&self) -> (authority: Identity)
        ensures
            authority == self@.authority,
    {
        self.authority
    }

    /// The players, in the order in which they joined.
    pub fn players(&self) -> (players: &Vec<Identity>)
        ensures
            players@ == self@.players,
    {
        &self.players
    }

    /// The three winner slots, best first; all empty until the room is
    /// settled.
    pub fn winners(&self) -> (winners: [Option<Identity>; 3])
        ensures
            winners@ == self@.winners,
    {
        self.winners
    }

    /// The scores of the three winner slots; all zero until the room is
    /// settled.
    pub fn final_scores(&self) -> (scores: [u32; 3])
        ensures
            scores@ == self@.final_scores,
    {
        self.final_scores
    }

    /// Whether `player` has joined the room.
    pub fn has_player(&self, player: &Identity) -> (found: bool)
        ensures
            found == self@.players.contains(*player),
    {
        let found = listed_before(&self.players, self.players.len(), player);
        proof {
            assert(self.players@.take(self.players.len() as int) =~= self.players@);
        }
        found
    }

    /// Why `player` cannot join the room, if so.
    pub fn join_refusal(&self, player: &Identity) -> (refusal: Option<GameError>)
        ensures
            refusal == self@.join_refusal(*player),
    {
        match self.status {
            GameStatus::Waiting => {
                if self.players.len() >= self.max_players as usize {
                    Some(GameError::RoomFull)
                } else if self.has_player(player) {
                    Some(GameError::AlreadyJoined)
                } else {
                    None
                }
            },
            _ => Some(GameError::RoomNotWaiting),
        }
    }

    /// Whether `player` can join the room.
    pub fn can_join(&self, player: &Identity) -> (can: bool)
        ensures
            can == self@.join_refusal(*player) is None,
    {
        self.join_refusal(player).is_none()
    }

    /// Why `player` cannot buy a power-up in the room, if so.
    pub fn power_up_refusal(&self, player: &Identity) -> (refusal: Option<GameError>)
        ensures
            refusal == self@.power_up_refusal(*player),
    {
        match self.status {
            GameStatus::Active => {
                if self.has_player(player) {
                    None
                } else {
                    Some(GameError::PlayerNotInRoom)
                }
            },
            _ => Some(GameError::RoomNotActive),
        }
    }

    /// Why `caller` cannot settle the room, if so.
    pub fn settle_refusal(&self, caller: &Identity) -> (refusal: Option<GameError>)
        ensures
            refusal == self@.settle_refusal(*caller),
    {
        if *caller != self.authority {
            return Some(GameError::Unauthorized);
        }
        match self.status {
            GameStatus::Active => None,
            _ => Some(GameError::RoomNotActive),
        }
    }

    /// Whether the room can be settled: it is in play.
    pub fn is_settleable(&self) -> (can: bool)
        ensures
            can == self@.status is Active,
    {
        match self.status {
            GameStatus::Active => true,
            _ => false,
        }
    }

    /// Why `caller` cannot cancel the room, if so.
    pub fn cancel_refusal(&self, caller: &Identity) -> (refusal: Option<GameError>)
        ensures
            refusal == self@.cancel_refusal(*caller),
    {
        if *caller != self.authority {
            return Some(GameError::Unauthorized);
        }
        match self.status {
            GameStatus::Waiting => None,
            GameStatus::Active => None,
            _ => Some(GameError::RoomNotActive),
        }
    }

    /// Seats `player` and adds the entry fee to the pool; the room comes
    /// into play if that was the last seat.
    pub(crate) fn seat(&mut self, player: Identity)
        requires
            old(self).wf(),
            old(self)@.join_refusal(player) is None,
        ensures
            final(self).wf(),
            final(self)@ == old(self)@.joined(player),
    {
        proof {
            self@.lemma_joined(player);
            lemma_stakes_fit(
                self@.players.len() + 1,
                self@.max_players,
                self@.entry_fee,
            );
        }
        self.players.push(player);
        self.total_pool = self.total_pool + self.entry_fee;
        if self.players.len() == self.max_players as usize {
            self.status = GameStatus::Active;
        }
    }

    /// Records the result of the room and ends it as finished.
    pub(crate) fn settle(&mut self, winners: [Option<Identity>; 3], final_scores: [u32; 3])
        requires
            old(self).wf(),
            old(self)@.status is Active,
        ensures
            final(self).wf(),
            final(self)@ == old(self)@.settled(winners@, final_scores@),
    {
        self.status = GameStatus::Finished;
        self.winners = winners;
        self.final_scores = final_scores;
    }

    /// Ends the room as cancelled, its pool emptied by the refunds.
    pub(crate) fn cancel(&mut self)
        requires
            old(self).wf(),
            !old(self)@.status.is_terminal(),
        ensures
            final(self).wf(),
            final(self)@ == old(self)@.cancelled(),
    {
        self.status = GameStatus::Cancelled;
        self.total_pool = 0;
    }
}

} // verus!
