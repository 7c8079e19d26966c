//! Escrow accounting: what is moved in and out of a room's pool, and how
//! the pool is split into prizes.
//!
//! All amounts are `u64` token base units. Prize shares are computed with a
//! 128-bit intermediate product, so that `pool * 50` cannot overflow for any
//! pool.

use vstd::prelude::*;
use crate::identity::Identity;

verus! {

/// The largest number of seats a room can have.
pub const MAX_PLAYERS: u8 = 6;

/// The largest supported entry fee: a sixth of `u64::MAX`, so that the pool
/// of a full room of `MAX_PLAYERS` seats always fits in a `u64`.
pub const MAX_ENTRY_FEE: u64 = 3_074_457_345_618_258_602;

/// The percentage of the pool that goes to each place, best first.
pub open spec fn prize_percent(slot: int) -> nat {
    if slot == 0 {
        50
    } else if slot == 1 {
        30
    } else if slot == 2 {
        20
    } else {
        0
    }
}

/// `percent` hundredths of `pool`, rounded down.
pub open spec fn share_of(pool: nat, percent: nat) -> nat {
    pool * percent / 100
}

/// The prize of the place `slot` (0 for first place) out of `pool`.
pub open spec fn prize(pool: nat, slot: int) -> nat {
    share_of(pool, prize_percent(slot))
}

/// What is left of `pool` once all three prizes are taken out of it.
pub open spec fn remainder(pool: nat) -> int {
    pool - prize(pool, 0) - prize(pool, 1) - prize(pool, 2)
}

/// Splits `pool` into the first, second and third prize: 50, 30 and 20
/// percent of it, each rounded down.
///
/// The prizes never exceed the pool together; rounding leaves at most two
/// base units undistributed.
pub fn compute_shares(pool: u64) -> (shares: (u64, u64, u64))
    ensures
        shares.0 == prize(pool as nat, 0),
        shares.1 == prize(pool as nat, 1),
        shares.2 == prize(pool as nat, 2),
        shares.0 >= shares.1 >= shares.2 >= 0,
        shares.0 + shares.1 + shares.2 <= pool,
        0 <= remainder(pool as nat) <= 2,
{
    let wide: u128 = pool as u128;
    let first: u128 = wide * 50 / 100;
    let second: u128 = wide * 30 / 100;
    let third: u128 = wide * 20 / 100;
    (first as u64, second as u64, third as u64)
}

/// A resource a player can buy during a round.
#[derive(Clone, Copy, Debug, PartialEq, Eq, Structural)]
pub enum PowerUpType {
    FreezeRay,
}

/// The fixed price of a power-up, in base units.
pub open spec fn cost_of(kind: PowerUpType) -> nat {
    match kind {
        PowerUpType::FreezeRay => 1_000_000,
    }
}

/// Looks up the price of a power-up.
pub fn power_up_cost(kind: PowerUpType) -> (cost: u64)
    ensures
        cost == cost_of(kind),
{
    match kind {
        PowerUpType::FreezeRay => 1_000_000,
    }
}

/// One end of a transfer.
#[derive(Clone, Copy, Debug, PartialEq, Eq)]
pub enum Party {
    /// A player's or winner's own holding.
    Holder(Identity),
    /// The escrow holding of the room.
    Escrow,
    /// The sink that power-up payments are burned into.
    Sink,
}

/// A movement of value that the value transfer service is asked to make.
#[derive(Clone, Copy, Debug, PartialEq, Eq)]
pub struct Transfer {
    pub from: Party,
    pub to: Party,
    pub amount: u64,
}

/// The sum of the amounts of `transfers`.
pub open spec fn total(transfers: Seq<Transfer>) -> nat
    decreases transfers.len(),
{
    if transfers.len() == 0 {
        0
    } else {
        total(transfers.drop_last()) + transfers.last().amount as nat
    }
}

/// What a winner is owed once a room is settled.
#[derive(Clone, Copy, Debug, PartialEq, Eq)]
pub struct Disbursement {
    /// 1 for the first place, 2 for the second, 3 for the third.
    pub place: u8,
    pub winner: Identity,
    pub amount: u64,
    pub score: u32,
}

/// What the place `slot` is owed out of `pool`: nothing where the slot is
/// empty or its prize is zero.
pub open spec fn disbursement(
    pool: nat,
    winners: Seq<Option<Identity>>,
    scores: Seq<u32>,
    slot: int,
) -> Option<Disbursement> {
    match winners[slot] {
        Some(winner) if prize(pool, slot) > 0 => Some(
            Disbursement {
                place: (slot + 1) as u8,
                winner,
                amount: prize(pool, slot) as u64,
                score: scores[slot],
            },
        ),
        _ => None,
    }
}

/// The amount of a disbursement; nothing for none.
pub open spec fn amount_due(due: Option<Disbursement>) -> nat {
    match due {
        Some(d) => d.amount as nat,
        None => 0,
    }
}

} // verus!
