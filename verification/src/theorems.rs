//! What holds of every room: theorems about the lifecycle and the escrow,
//! proved over the model that the transitions are specified against.

use vstd::prelude::*;
use crate::error::{GameError, TransferError};
use crate::escrow::{amount_due, disbursement, prize, remainder, total, Transfer};
use crate::identity::Identity;
use crate::model::{outcome, GameView};

verus! {

/// The players of those calls of `calls` whose payment went through, in
/// the order of the calls.
pub open spec fn seated(calls: Seq<(Identity, Result<(), TransferError>)>) -> Seq<Identity>
    decreases calls.len(),
{
    if calls.len() == 0 {
        Seq::empty()
    } else if calls.last().1 is Ok {
        seated(calls.drop_last()).push(calls.last().0)
    } else {
        seated(calls.drop_last())
    }
}

/// Whether `calls` name players that all differ, none of whom is in
/// `room`, and no more of them than `room` has free seats.
pub open spec fn newcomers(room: GameView, calls: Seq<(Identity, Result<(), TransferError>)>) -> bool {
    &&& forall|i: int, j: int| 0 <= i < j < calls.len() ==> calls[i].0 != calls[j].0
    &&& forall|i: int| 0 <= i < calls.len() ==> !room.players.contains(#[trigger] calls[i].0)
    &&& room.players.len() + calls.len() <= room.max_players
}

/// Those who were seated are among those who called, in no greater number.
proof fn lemma_seated_called(calls: Seq<(Identity, Result<(), TransferError>)>)
    ensures
        seated(calls).len() <= calls.len(),
        forall|k: int|
            0 <= k < seated(calls).len() ==> exists|i: int|
                0 <= i < calls.len() && calls[i].0 == #[trigger] seated(calls)[k],
    decreases calls.len(),
{
    if calls.len() > 0 {
        let init = calls.drop_last();
        lemma_seated_called(init);
        assert forall|k: int| 0 <= k < seated(calls).len() implies exists|i: int|
            0 <= i < calls.len() && calls[i].0 == #[trigger] seated(calls)[k] by {
            if k < seated(init).len() {
                let i = choose|i: int| 0 <= i < init.len() && init[i].0 == seated(init)[k];
                assert(calls[i].0 == seated(calls)[k]);
            } else {
                assert(calls[calls.len() - 1].0 == seated(calls)[k]);
            }
        }
    }
}

/// Whatever calls have asked for players to join a room, the room is
/// still well formed.
pub proof fn lemma_after_joins_wf(room: GameView, calls: Seq<(Identity, Result<(), TransferError>)>)
    requires
        room.wf(),
    ensures
        room.after_joins(calls).wf(),
        room.after_joins(calls).entry_fee == room.entry_fee,
        room.after_joins(calls).max_players == room.max_players,
    decreases calls.len(),
{
    if calls.len() > 0 {
        lemma_after_joins_wf(room, calls.drop_last());
        let mid = room.after_joins(calls.drop_last());
        if outcome(mid.join_refusal(calls.last().0), calls.last().1) is Ok {
            mid.lemma_joined(calls.last().0);
        }
    }
}

/// Each join counts once. In any sequence of calls that ask for players
/// to join a room, the call at any place `k` adds exactly one player if it
/// succeeds and leaves the room as it was if it fails; and after it the
/// pool holds exactly one entry fee per player, unless the room had been
/// cancelled.
pub proof fn theorem_each_join_counts_once(
    room: GameView,
    calls: Seq<(Identity, Result<(), TransferError>)>,
    k: int,
)
    requires
        room.wf(),
        0 <= k < calls.len(),
    ensures
        ({
            let before = room.after_joins(calls.take(k));
            let after = room.after_joins(calls.take(k + 1));
            let result = outcome(before.join_refusal(calls[k].0), calls[k].1);
            &&& after == before.after_join(calls[k].0, calls[k].1)
            &&& result is Ok ==> after.current_players() == before.current_players() + 1
            &&& result is Err ==> after == before
            &&& after.wf()
            &&& !(after.status is Cancelled) ==> after.total_pool == after.current_players()
                * room.entry_fee
        }),
{
    assert(calls.take(k + 1).drop_last() =~= calls.take(k));
    assert(calls.take(k + 1).last() == calls[k]);
    lemma_after_joins_wf(room, calls.take(k));
    lemma_after_joins_wf(room, calls.take(k + 1));
}

/// Joining in sequence. Let different players who are not in a waiting
/// room ask to join it one after another, no more of them than there are
/// free seats. Then each call succeeds exactly if its payment went through;
/// the players of the room are then those it had, followed by those whose
/// call succeeded, so that each successful call adds exactly one player;
/// and the pool holds one entry fee per player. The room is waiting as
/// long as a seat is free, and in play once a call has taken the last one.
///
/// Every prefix of such calls is such a sequence of calls, so this holds
/// after each call, not only after the last.
pub proof fn theorem_joins_in_sequence(
    room: GameView,
    calls: Seq<(Identity, Result<(), TransferError>)>,
)
    requires
        room.wf(),
        room.status is Waiting,
        newcomers(room, calls),
    ensures
        room.after_joins(calls).wf(),
        room.after_joins(calls).players == room.players + seated(calls),
        room.after_joins(calls).current_players() == room.current_players() + seated(calls).len(),
        room.after_joins(calls).total_pool == room.after_joins(calls).current_players()
            * room.entry_fee,
        room.after_joins(calls).entry_fee == room.entry_fee,
        room.after_joins(calls).max_players == room.max_players,
        !room.after_joins(calls).is_full() ==> room.after_joins(calls).status is Waiting,
        room.after_joins(calls).is_full() && seated(calls).len() > 0 ==> room.after_joins(
            calls,
        ).status is Active,
        forall|k: int|
            0 <= k < calls.len() ==> room.after_joins(#[trigger] calls.take(k)).join_refusal(
                calls[k].0,
            ) is None,
    decreases calls.len(),
{
    if calls.len() == 0 {
        assert(room.players + seated(calls) =~= room.players);
    } else {
        let init = calls.drop_last();
        let last = calls.last();
        let mid = room.after_joins(init);
        theorem_joins_in_sequence(room, init);
        lemma_seated_called(init);
        // The last caller is not in the room yet, and a seat is free.
        assert(!mid.players.contains(last.0)) by {
            if mid.players.contains(last.0) {
                let at = choose|at: int| 0 <= at < mid.players.len() && mid.players[at] == last.0;
                if at < room.players.len() {
                    assert(room.players[at] == last.0);
                    assert(room.players.contains(calls[calls.len() - 1].0));
                } else {
                    let k = at - room.players.len();
                    assert(seated(init)[k] == last.0);
                    let i = choose|i: int| 0 <= i < init.len() && init[i].0 == seated(init)[k];
                    assert(calls[i].0 == calls[calls.len() - 1].0);
                }
            }
        }
        assert(mid.join_refusal(last.0) is None);
        if last.1 is Ok {
            mid.lemma_joined(last.0);
            assert(room.players + seated(calls) =~= mid.players.push(last.0));
        }
        assert forall|k: int| 0 <= k < calls.len() implies room.after_joins(
            #[trigger] calls.take(k),
        ).join_refusal(calls[k].0) is None by {
            if k < init.len() {
                assert(calls.take(k) =~= init.take(k));
            } else {
                assert(calls.take(k) =~= init);
            }
        }
    }
}

/// A room that is not waiting refuses every join with `RoomNotWaiting`; a
/// waiting room in which every seat is taken refuses every join with
/// `RoomFull`. Either way the room stays as it is.
pub proof fn theorem_join_refused(room: GameView, player: Identity, payment: Result<(), TransferError>)
    ensures
        !(room.status is Waiting) ==> outcome(room.join_refusal(player), payment) == Err::<
            (),
            GameError,
        >(GameError::RoomNotWaiting),
        room.status is Waiting && room.is_full() ==> outcome(room.join_refusal(player), payment)
            == Err::<(), GameError>(GameError::RoomFull),
        !(room.status is Waiting) || room.is_full() ==> room.after_join(player, payment) == room,
{
}

/// The join that takes the last seat puts the room in play in the same
/// step that seats the player; a join that leaves a seat free leaves the
/// room waiting.
pub proof fn theorem_last_seat_starts_play(
    room: GameView,
    player: Identity,
    payment: Result<(), TransferError>,
)
    requires
        room.wf(),
        outcome(room.join_refusal(player), payment) is Ok,
    ensures
        room.after_join(player, payment).players == room.players.push(player),
        room.current_players() + 1 == room.max_players ==> room.after_join(
            player,
            payment,
        ).status is Active,
        room.current_players() + 1 < room.max_players ==> room.after_join(
            player,
            payment,
        ).status is Waiting,
{
}

/// The three prizes are 50, 30 and 20 percent of the pool, rounded down:
/// none exceeds the one before it, together they do not exceed the pool,
/// and they leave at most two base units of it.
pub proof fn theorem_prizes(pool: nat)
    ensures
        prize(pool, 0) == pool * 50 / 100,
        prize(pool, 1) == pool * 30 / 100,
        prize(pool, 2) == pool * 20 / 100,
        prize(pool, 0) >= prize(pool, 1) >= prize(pool, 2),
        prize(pool, 0) + prize(pool, 1) + prize(pool, 2) <= pool,
        0 <= remainder(pool) <= 2,
{
}

/// What a settlement owes the winners does not exceed the pool.
pub proof fn theorem_dues_within_pool(
    pool: nat,
    winners: Seq<Option<Identity>>,
    final_scores: Seq<u32>,
)
    requires
        pool <= u64::MAX,
        winners.len() == 3,
        final_scores.len() == 3,
    ensures
        amount_due(disbursement(pool, winners, final_scores, 0)) + amount_due(
            disbursement(pool, winners, final_scores, 1),
        ) + amount_due(disbursement(pool, winners, final_scores, 2)) <= pool,
{
    theorem_prizes(pool);
}

/// A room is settled at most once: after a settlement that succeeded,
/// every further call for settlement fails, with `RoomNotActive` if the
/// authority makes it, and leaves winners and scores as they were set.
pub proof fn theorem_settle_once(
    room: GameView,
    authority: Identity,
    winners: Seq<Option<Identity>>,
    final_scores: Seq<u32>,
    caller: Identity,
    later_winners: Seq<Option<Identity>>,
    later_scores: Seq<u32>,
)
    requires
        room.settle_refusal(authority) is None,
    ensures
        room.after_settle(authority, winners, final_scores).settle_refusal(authority) == Some(
            GameError::RoomNotActive,
        ),
        room.after_settle(authority, winners, final_scores).settle_refusal(caller) is Some,
        room.after_settle(authority, winners, final_scores).after_settle(
            caller,
            later_winners,
            later_scores,
        ) == room.after_settle(authority, winners, final_scores),
{
}

/// A cancellation by the authority whose refunds went through ends a
/// waiting room, and a room in play, as cancelled. A finished room, and a
/// room that is cancelled already, refuse every cancellation, with
/// `RoomNotActive` if the authority asks for it, and stay as they are.
pub proof fn theorem_cancel(room: GameView, caller: Identity, refunds: Result<(), TransferError>)
    ensures
        (room.status is Waiting || room.status is Active) && caller == room.authority
            && refunds is Ok ==> {
            &&& outcome(room.cancel_refusal(caller), refunds) is Ok
            &&& room.after_cancel(caller, refunds).status is Cancelled
        },
        room.status is Finished || room.status is Cancelled ==> {
            &&& outcome(room.cancel_refusal(caller), refunds) is Err
            &&& caller == room.authority ==> outcome(room.cancel_refusal(caller), refunds) == Err::<
                (),
                GameError,
            >(GameError::RoomNotActive)
            &&& room.after_cancel(caller, refunds) == room
        },
{
}

/// Transfers of one and the same amount add up to that amount times
/// their number.
proof fn lemma_total_of_equal_amounts(transfers: Seq<Transfer>, amount: nat)
    requires
        forall|i: int| 0 <= i < transfers.len() ==> (#[trigger] transfers[i]).amount == amount,
    ensures
        total(transfers) == transfers.len() * amount,
    decreases transfers.len(),
{
    if transfers.len() > 0 {
        lemma_total_of_equal_amounts(transfers.drop_last(), amount);
        assert((transfers.len() - 1) * amount + amount == transfers.len() * amount)
            by (nonlinear_arith);
    } else {
        assert(transfers.len() * amount == 0) by (nonlinear_arith)
            requires
                transfers.len() == 0,
        ;
    }
}

/// The refunds of a cancellation return the pool, no more and no less:
/// one refund per player, and together the amount the room holds.
pub proof fn theorem_refunds_return_pool(room: GameView)
    requires
        room.wf(),
        !(room.status is Cancelled),
    ensures
        room.refunds().len() == room.current_players(),
        total(room.refunds()) == room.total_pool,
{
    lemma_total_of_equal_amounts(room.refunds(), room.entry_fee);
}

/// The status of a room only moves along the edges of the lifecycle:
/// whatever is asked of a room, its status stays or follows one edge.
pub proof fn theorem_status_moves_forward(
    room: GameView,
    caller: Identity,
    transfer: Result<(), TransferError>,
    winners: Seq<Option<Identity>>,
    final_scores: Seq<u32>,
)
    requires
        room.wf(),
    ensures
        room.after_join(caller, transfer).status == room.status || room.status.leads_to(
            room.after_join(caller, transfer).status,
        ),
        room.after_settle(caller, winners, final_scores).status == room.status
            || room.status.leads_to(room.after_settle(caller, winners, final_scores).status),
        room.after_cancel(caller, transfer).status == room.status || room.status.leads_to(
            room.after_cancel(caller, transfer).status,
        ),
{
}

/// A finished or cancelled room is final: every join, power-up, settlement
/// and cancellation is refused, so nothing about the room changes any
/// more, its winners and scores included.
pub proof fn theorem_terminal_is_final(
    room: GameView,
    caller: Identity,
    transfer: Result<(), TransferError>,
    winners: Seq<Option<Identity>>,
    final_scores: Seq<u32>,
)
    requires
        room.status.is_terminal(),
    ensures
        room.join_refusal(caller) is Some,
        room.power_up_refusal(caller) is Some,
        room.settle_refusal(caller) is Some,
        room.cancel_refusal(caller) is Some,
        room.after_join(caller, transfer) == room,
        room.after_settle(caller, winners, final_scores) == room,
        room.after_cancel(caller, transfer) == room,
{
}

/// Winners and scores are set by the settlement of a room in play and by
/// nothing else: joins and cancellations keep them, and so does a call for
/// settlement that is refused.
pub proof fn theorem_result_set_by_settlement(
    room: GameView,
    caller: Identity,
    transfer: Result<(), TransferError>,
    winners: Seq<Option<Identity>>,
    final_scores: Seq<u32>,
)
    ensures
        room.after_join(caller, transfer).winners == room.winners,
        room.after_join(caller, transfer).final_scores == room.final_scores,
        room.after_cancel(caller, transfer).winners == room.winners,
        room.after_cancel(caller, transfer).final_scores == room.final_scores,
        !(room.status is Active) ==> room.after_settle(caller, winners, final_scores) == room,
        room.settle_refusal(caller) is None ==> {
            &&& room.after_settle(caller, winners, final_scores).winners == winners
            &&& room.after_settle(caller, winners, final_scores).final_scores == final_scores
        },
{
}

/// Every transition keeps a well formed room well formed.
pub proof fn theorem_invariant_kept(
    room: GameView,
    caller: Identity,
    transfer: Result<(), TransferError>,
    winners: Seq<Option<Identity>>,
    final_scores: Seq<u32>,
)
    requires
        room.wf(),
        winners.len() == 3,
        final_scores.len() == 3,
    ensures
        room.after_join(caller, transfer).wf(),
        room.after_settle(caller, winners, final_scores).wf(),
        room.after_cancel(caller, transfer).wf(),
{
    if outcome(room.join_refusal(caller), transfer) is Ok {
        room.lemma_joined(caller);
    }
}

} // verus!
