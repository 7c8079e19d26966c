//! The mathematical model of a room: what a room is, which rooms are
//! well formed, and what each transition makes of a room.
//!
//! The executable code is specified against these definitions, and the
//! theorems about the lifecycle are stated over them.

use vstd::prelude::*;
use crate::error::{transfer_failure, GameError, TransferError};
use crate::escrow::{cost_of, Party, PowerUpType, Transfer, MAX_ENTRY_FEE, MAX_PLAYERS};
use crate::identity::Identity;

verus! {

/// Where a room stands in its lifecycle.
///
/// A room starts `Waiting`, becomes `Active` when its last seat is taken,
/// and ends `Finished` once settled. The authority can end a `Waiting` or
/// `Active` room as `Cancelled`. `Finished` and `Cancelled` are final.
#[derive(Clone, Copy, Debug, PartialEq, Eq, Structural)]
pub enum GameStatus {
    Waiting,
    Active,
    Finished,
    Cancelled,
}

impl GameStatus {
    /// Whether no transition leads out of this status.
    pub open spec fn is_terminal(self) -> bool {
        self is Finished || self is Cancelled
    }

    /// Whether the lifecycle has an edge from this status to `next`.
    pub open spec fn leads_to(self, next: GameStatus) -> bool {
        match (self, next) {
            (GameStatus::Waiting, GameStatus::Active) => true,
            (GameStatus::Active, GameStatus::Finished) => true,
            (GameStatus::Waiting, GameStatus::Cancelled) => true,
            (GameStatus::Active, GameStatus::Cancelled) => true,
            _ => false,
        }
    }
}

/// A room as a mathematical value.
pub struct GameView {
    pub game_id: u64,
    pub entry_fee: nat,
    pub max_players: nat,
    pub status: GameStatus,
    pub total_pool: nat,
    pub authority: Identity,
    /// The players in the order in which they joined.
    pub players: Seq<Identity>,
    /// The three winner slots, best first; a slot may be empty.
    pub winners: Seq<Option<Identity>>,
    /// The score of each winner slot.
    pub final_scores: Seq<u32>,
}

/// Three empty winner slots.
pub open spec fn no_winners() -> Seq<Option<Identity>> {
    seq![None, None, None]
}

/// Three zero scores.
pub open spec fn no_scores() -> Seq<u32> {
    seq![0u32, 0u32, 0u32]
}

/// Whether a room can be created with this entry fee and number of seats.
pub open spec fn valid_configuration(entry_fee: nat, max_players: nat) -> bool {
    &&& 1 <= max_players <= MAX_PLAYERS
    &&& 1 <= entry_fee <= MAX_ENTRY_FEE
}

/// The stakes of the players of a room with a valid configuration fit in a
/// `u64`, also when every seat is taken.
pub proof fn lemma_stakes_fit(players: nat, seats: nat, entry_fee: nat)
    requires
        players <= seats <= MAX_PLAYERS,
        entry_fee <= MAX_ENTRY_FEE,
    ensures
        players * entry_fee <= seats * entry_fee <= u64::MAX,
{
    assert(players * entry_fee <= seats * entry_fee) by (nonlinear_arith)
        requires
            players <= seats,
    ;
    assert(seats * entry_fee <= 6 * MAX_ENTRY_FEE) by (nonlinear_arith)
        requires
            seats <= 6,
            entry_fee <= MAX_ENTRY_FEE,
    ;
}

/// Why a room cannot be created, if so: its id is taken, or else its
/// configuration is invalid.
pub open spec fn creation_refusal(occupied: bool, entry_fee: nat, max_players: nat) -> Option<
    GameError,
> {
    if occupied {
        Some(GameError::RoomAlreadyExists)
    } else if !valid_configuration(entry_fee, max_players) {
        Some(GameError::InvalidConfiguration)
    } else {
        None
    }
}

/// The payment for a power-up: its price, from the player into the sink.
pub open spec fn power_up_payment(player: Identity, kind: PowerUpType) -> Transfer {
    Transfer { from: Party::Holder(player), to: Party::Sink, amount: cost_of(kind) as u64 }
}

/// What a transition reports that was not refused and then asked the value
/// transfer service to move value: the service's failure, if it failed.
pub open spec fn outcome(refusal: Option<GameError>, transfer: Result<(), TransferError>) -> Result<
    (),
    GameError,
> {
    match (refusal, transfer) {
        (Some(e), _) => Err(e),
        (None, Err(e)) => Err(transfer_failure(e)),
        (None, Ok(_)) => Ok(()),
    }
}

impl GameView {
    /// The number of players who have joined.
    pub open spec fn current_players(self) -> nat {
        self.players.len()
    }

    /// Whether every seat is taken.
    pub open spec fn is_full(self) -> bool {
        self.players.len() >= self.max_players
    }

    /// What the players have paid in: one entry fee each.
    pub open spec fn stakes(self) -> nat {
        self.players.len() * self.entry_fee
    }

    /// The invariant of a room.
    ///
    /// The configuration is valid, no more players have joined than there
    /// are seats, no player has joined twice, the pool holds exactly the
    /// players' stakes until a cancellation has refunded them, and winners
    /// and scores are blank until the room is settled.
    pub open spec fn wf(self) -> bool {
        &&& valid_configuration(self.entry_fee, self.max_players)
        &&& self.players.len() <= self.max_players
        &&& self.players.no_duplicates()
        &&& self.total_pool == if self.status is Cancelled {
            0
        } else {
            self.stakes()
        }
        &&& self.winners.len() == 3
        &&& self.final_scores.len() == 3
        &&& !(self.status is Finished) ==> self.winners == no_winners() && self.final_scores
            == no_scores()
    }

    /// The room as it is created: waiting, with no player and an empty pool.
    pub open spec fn fresh(game_id: u64, entry_fee: nat, max_players: nat, authority: Identity) -> GameView {
        GameView {
            game_id,
            entry_fee,
            max_players,
            status: GameStatus::Waiting,
            total_pool: 0,
            authority,
            players: Seq::empty(),
            winners: no_winners(),
            final_scores: no_scores(),
        }
    }

    /// Why `player` cannot join, if so.
    pub open spec fn join_refusal(self, player: Identity) -> Option<GameError> {
        if !(self.status is Waiting) {
            Some(GameError::RoomNotWaiting)
        } else if self.is_full() {
            Some(GameError::RoomFull)
        } else if self.players.contains(player) {
            Some(GameError::AlreadyJoined)
        } else {
            None
        }
    }

    /// The room after `player` has joined: one more player, one more entry
    /// fee in the pool, and the room in play if that was the last seat.
    pub open spec fn joined(self, player: Identity) -> GameView {
        GameView {
            status: if self.players.len() + 1 == self.max_players {
                GameStatus::Active
            } else {
                self.status
            },
            total_pool: self.total_pool + self.entry_fee,
            players: self.players.push(player),
            ..self
        }
    }

    /// The room after a call that asks for `player` to join, where the
    /// transfer of the stake went as `payment` says: the room with the
    /// player if the call succeeds, the same room if it fails.
    pub open spec fn after_join(self, player: Identity, payment: Result<(), TransferError>) -> GameView {
        if outcome(self.join_refusal(player), payment) is Ok {
            self.joined(player)
        } else {
            self
        }
    }

    /// The room after each call of `calls`, in turn, has asked for its
    /// player to join with its payment.
    pub open spec fn after_joins(self, calls: Seq<(Identity, Result<(), TransferError>)>) -> GameView
        decreases calls.len(),
    {
        if calls.len() == 0 {
            self
        } else {
            self.after_joins(calls.drop_last()).after_join(calls.last().0, calls.last().1)
        }
    }

    /// The payment that lets `player` join: the entry fee, from the player
    /// into the escrow of the room.
    pub open spec fn stake(self, player: Identity) -> Transfer {
        Transfer { from: Party::Holder(player), to: Party::Escrow, amount: self.entry_fee as u64 }
    }

    /// Why `player` cannot buy a power-up, if so.
    pub open spec fn power_up_refusal(self, player: Identity) -> Option<GameError> {
        if !(self.status is Active) {
            Some(GameError::RoomNotActive)
        } else if !self.players.contains(player) {
            Some(GameError::PlayerNotInRoom)
        } else {
            None
        }
    }

    /// Why `caller` cannot settle the room, if so.
    pub open spec fn settle_refusal(self, caller: Identity) -> Option<GameError> {
        if caller != self.authority {
            Some(GameError::Unauthorized)
        } else if !(self.status is Active) {
            Some(GameError::RoomNotActive)
        } else {
            None
        }
    }

    /// The room after its settlement with these winners and scores.
    pub open spec fn settled(self, winners: Seq<Option<Identity>>, final_scores: Seq<u32>) -> GameView {
        GameView { status: GameStatus::Finished, winners, final_scores, ..self }
    }

    /// The room after a call by `caller` that asks for its settlement:
    /// the settled room if the call succeeds, the same room if it fails.
    pub open spec fn after_settle(
        self,
        caller: Identity,
        winners: Seq<Option<Identity>>,
        final_scores: Seq<u32>,
    ) -> GameView {
        if self.settle_refusal(caller) is None {
            self.settled(winners, final_scores)
        } else {
            self
        }
    }

    /// Why `caller` cannot cancel the room, if so.
    pub open spec fn cancel_refusal(self, caller: Identity) -> Option<GameError> {
        if caller != self.authority {
            Some(GameError::Unauthorized)
        } else if self.status.is_terminal() {
            Some(GameError::RoomNotActive)
        } else {
            None
        }
    }

    /// The refunds that a cancellation makes: the entry fee, out of the
    /// escrow of the room, to each player in the order of joining.
    pub open spec fn refunds(self) -> Seq<Transfer> {
        Seq::new(
            self.players.len(),
            |i: int|
                Transfer {
                    from: Party::Escrow,
                    to: Party::Holder(self.players[i]),
                    amount: self.entry_fee as u64,
                },
        )
    }

    /// The room after its cancellation: every stake has been refunded.
    pub open spec fn cancelled(self) -> GameView {
        GameView { status: GameStatus::Cancelled, total_pool: 0, ..self }
    }

    /// The room after a call by `caller` that asks for its cancellation,
    /// where the refunds went as `refunds` says: the cancelled room if the
    /// call succeeds, the same room if it fails.
    pub open spec fn after_cancel(self, caller: Identity, refunds: Result<(), TransferError>) -> GameView {
        if outcome(self.cancel_refusal(caller), refunds) is Ok {
            self.cancelled()
        } else {
            self
        }
    }

    /// A join that is not refused keeps the room well formed: the new
    /// player is no duplicate, and the pool holds one stake per player.
    pub proof fn lemma_joined(self, player: Identity)
        requires
            self.wf(),
            self.join_refusal(player) is None,
        ensures
            self.joined(player).wf(),
    {
        let before = self.players;
        let after = before.push(player);
        assert((before.len() + 1) * self.entry_fee == before.len() * self.entry_fee
            + self.entry_fee) by (nonlinear_arith);
        assert forall|a: int, b: int|
            0 <= a < after.len() && 0 <= b < after.len() && a != b implies after[a]
            != after[b] by {
            if a < before.len() && b < before.len() {
                assert(before[a] != before[b]);
            } else if a < before.len() {
                assert(before.contains(before[a]));
            } else {
                assert(before.contains(before[b]));
            }
        }
    }
}

} // verus!
