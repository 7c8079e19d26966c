//! The lifecycle of a room: the five transitions that create it, fill it,
//! charge for power-ups, settle it and cancel it.
//!
//! Value is moved by a transfer service outside this library. A transition
//! that depends on a payment therefore comes in two parts: a function that
//! says which transfer to ask for ([`stake_transfer`], [`power_up_transfer`],
//! [`refund_transfers`]), and the transition itself, which is told how the
//! transfer went and changes the room only if it went through. A transition
//! that is refused, or whose transfer failed, leaves the room as it was.
//!
//! Every identity handed to a transition as the player or the authority is
//! the identity that signed the request; checking the signature is the
//! caller's part.
//!
//! Settlement moves no value: it records the winners and says what each is
//! owed. The pool is left as it is, so the shares of empty slots and the
//! one or two base units lost to rounding stay in escrow.

use vstd::prelude::*;
use crate::error::{GameError, TransferError};
use crate::escrow::{
    compute_shares,
    cost_of,
    disbursement,
    power_up_cost,
    Disbursement,
    Party,
    PowerUpType,
    Transfer,
};
use crate::identity::Identity;
use crate::model::{creation_refusal, outcome, power_up_payment, GameView};
use crate::record::Game;

verus! {

/// Creates the room `game_id`.
///
/// `occupied` says whether the record store already holds a room under
/// `game_id`. Fails with `RoomAlreadyExists` if it does, and otherwise with
/// `InvalidConfiguration` if the room cannot be configured this way.
pub fn initialize_game(
    occupied: bool,
    game_id: u64,
    entry_fee: u64,
    max_players: u8,
    authority: Identity,
) -> (made: Result<Game, GameError>)
    ensures
        match made {
            Ok(game) => {
                &&& creation_refusal(occupied, entry_fee as nat, max_players as nat) is None
                &&& game.wf()
                &&& game@ == GameView::fresh(
                    game_id,
                    entry_fee as nat,
                    max_players as nat,
                    authority,
                )
            },
            Err(e) => creation_refusal(occupied, entry_fee as nat, max_players as nat) == Some(e),
        },
{
    if occupied {
        return Err(GameError::RoomAlreadyExists);
    }
    Game::new(game_id, entry_fee, max_players, authority)
}

/// The transfer to ask for before `player` joins, or why `player` cannot
/// join.
pub fn stake_transfer(game: &Game, player: Identity) -> (asked: Result<Transfer, GameError>)
    ensures
        asked == match game@.join_refusal(player) {
            Some(e) => Err::<Transfer, GameError>(e),
            None => Ok(game@.stake(player)),
        },
{
    match game.join_refusal(&player) {
        Some(e) => Err(e),
        None => Ok(
            Transfer { from: Party::Holder(player), to: Party::Escrow, amount: game.entry_fee() },
        ),
    }
}

/// Lets `player` join the room, given how the transfer of the stake went.
///
/// Fails with `RoomNotWaiting` if the room is not waiting, else with
/// `RoomFull` if every seat is taken, else with `AlreadyJoined` if the
/// player has a seat, else with the failure of the transfer if it failed.
/// Otherwise the player takes the next seat, the pool grows by the entry
/// fee, and the room comes into play if no seat is left.
pub fn join_game(game: &mut Game, player: Identity, payment: Result<(), TransferError>) -> (joined:
    Result<(), GameError>)
    requires
        old(game).wf(),
    ensures
        final(game).wf(),
        joined == outcome(old(game)@.join_refusal(player), payment),
        final(game)@ == old(game)@.after_join(player, payment),
        joined is Ok ==> {
            &&& final(game)@.current_players() == old(game)@.current_players() + 1
            &&& final(game)@.total_pool == final(game)@.current_players() * final(game)@.entry_fee
            &&& final(game)@.is_full() ==> final(game)@.status is Active
            &&& !final(game)@.is_full() ==> final(game)@.status is Waiting
        },
{
    if let Some(e) = game.join_refusal(&player) {
        return Err(e);
    }
    if let Err(e) = payment {
        return Err(GameError::from(e));
    }
    game.seat(player);
    Ok(())
}

/// The transfer to ask for before `player` uses a power-up, or why
/// `player` cannot use one.
pub fn power_up_transfer(game: &Game, player: Identity, power_up_type: PowerUpType) -> (asked:
    Result<Transfer, GameError>)
    ensures
        asked == match game@.power_up_refusal(player) {
            Some(e) => Err::<Transfer, GameError>(e),
            None => Ok(power_up_payment(player, power_up_type)),
        },
{
    match game.power_up_refusal(&player) {
        Some(e) => Err(e),
        None => Ok(
            Transfer {
                from: Party::Holder(player),
                to: Party::Sink,
                amount: power_up_cost(power_up_type),
            },
        ),
    }
}

/// Lets `player` use a power-up, given how the transfer of its price went,
/// and returns the amount burned.
///
/// Fails with `RoomNotActive` if the room is not in play, else with
/// `PlayerNotInRoom` if the player has no seat, else with the failure of
/// the transfer if it failed. The room is not changed either way.
pub fn use_power_up(
    game: &Game,
    player: Identity,
    power_up_type: PowerUpType,
    payment: Result<(), TransferError>,
) -> (burned: Result<u64, GameError>)
    ensures
        burned == match outcome(game@.power_up_refusal(player), payment) {
            Ok(_) => Ok::<u64, GameError>(cost_of(power_up_type) as u64),
            Err(e) => Err(e),
        },
{
    if let Some(e) = game.power_up_refusal(&player) {
        return Err(e);
    }
    if let Err(e) = payment {
        return Err(GameError::from(e));
    }
    Ok(power_up_cost(power_up_type))
}

/// What the winner in a slot is owed, if anything.
fn owed(place: u8, winner: Option<Identity>, amount: u64, score: u32) -> (due: Option<Disbursement>)
    ensures
        due == match winner {
            Some(w) if amount > 0 => Some(Disbursement { place, winner: w, amount, score }),
            _ => None,
        },
{
    match winner {
        Some(w) => {
            if amount > 0 {
                Some(Disbursement { place, winner: w, amount, score })
            } else {
                None
            }
        },
        None => None,
    }
}

/// Settles the room: records winners and scores, ends the room as
/// finished, and returns what each slot is owed.
///
/// Fails with `Unauthorized` if `authority` is not the room's authority,
/// else with `RoomNotActive` if the room is not in play. The prizes are
/// 50, 30 and 20 percent of the pool, rounded down; a slot is owed its
/// prize if it names a winner and the prize is not zero. The pool itself
/// is not changed.
pub fn distribute_rewards(
    game: &mut Game,
    authority: Identity,
    winners: [Option<Identity>; 3],
    final_scores: [u32; 3],
) -> (dues: Result<[Option<Disbursement>; 3], GameError>)
    requires
        old(game).wf(),
    ensures
        final(game).wf(),
        final(game)@ == old(game)@.after_settle(authority, winners@, final_scores@),
        match dues {
            Ok(slots) => {
                &&& old(game)@.settle_refusal(authority) is None
                &&& forall|slot: int|
                    0 <= slot < 3 ==> #[trigger] slots@[slot] == disbursement(
                        old(game)@.total_pool,
                        winners@,
                        final_scores@,
                        slot,
                    )
            },
            Err(e) => old(game)@.settle_refusal(authority) == Some(e),
        },
{
    if let Some(e) = game.settle_refusal(&authority) {
        return Err(e);
    }
    let shares = compute_shares(game.total_pool());
    let slots = [
        owed(1, winners[0], shares.0, final_scores[0]),
        owed(2, winners[1], shares.1, final_scores[1]),
        owed(3, winners[2], shares.2, final_scores[2]),
    ];
    game.settle(winners, final_scores);
    Ok(slots)
}

/// The refunds to ask for before the room is cancelled, or why `authority`
/// cannot cancel it: one entry fee back to each player.
pub fn refund_transfers(game: &Game, authority: Identity) -> (asked: Result<
    Vec<Transfer>,
    GameError,
>)
    ensures
        match asked {
            Ok(refunds) => {
                &&& game@.cancel_refusal(authority) is None
                &&& refunds@ == game@.refunds()
            },
            Err(e) => game@.cancel_refusal(authority) == Some(e),
        },
{
    if let Some(e) = game.cancel_refusal(&authority) {
        return Err(e);
    }
    let players = game.players();
    let fee = game.entry_fee();
    let mut refunds: Vec<Transfer> = Vec::new();
    let mut i: usize = 0;
    while i < players.len()
        invariant
            i <= players.len(),
            players@ == game@.players,
            fee == game@.entry_fee,
            refunds@.len() == i,
            forall|k: int| 0 <= k < i ==> refunds@[k] == game@.refunds()[k],
        decreases players.len() - i,
    {
        refunds.push(Transfer { from: Party::Escrow, to: Party::Holder(players[i]), amount: fee });
        i += 1;
    }
    proof {
        assert(refunds@ =~= game@.refunds());
    }
    Ok(refunds)
}

/// Cancels the room, given how the refunds went.
///
/// Fails with `Unauthorized` if `authority` is not the room's authority,
/// else with `RoomNotActive` if the room is already finished or cancelled,
/// else with the failure of the refunds if they failed. Otherwise the room
/// ends as cancelled and its pool, refunded, is empty.
pub fn emergency_end_game(game: &mut Game, authority: Identity, refunds: Result<(), TransferError>) -> (ended:
    Result<(), GameError>)
    requires
        old(game).wf(),
    ensures
        final(game).wf(),
        ended == outcome(old(game)@.cancel_refusal(authority), refunds),
        final(game)@ == old(game)@.after_cancel(authority, refunds),
{
    if let Some(e) = game.cancel_refusal(&authority) {
        return Err(e);
    }
    if let Err(e) = refunds {
        return Err(GameError::from(e));
    }
    game.cancel();
    Ok(())
}

} // verus!
