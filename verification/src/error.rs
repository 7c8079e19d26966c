//! The failures a transition can report.

use vstd::prelude::*;
use vstd::std_specs::convert::FromSpecImpl;

verus! {

/// Why the value transfer service did not move an amount.
#[derive(Clone, Copy, Debug, PartialEq, Eq, Structural)]
pub enum TransferError {
    /// The paying party does not hold the amount.
    InsufficientFunds,
    /// The service refused the transfer for any other reason.
    TransferRejected,
}

/// Why a transition was refused. A refused transition changes nothing.
#[derive(Clone, Copy, Debug, PartialEq, Eq, Structural)]
pub enum GameError {
    /// The room cannot be configured this way: no seats, too many seats,
    /// no entry fee, or an entry fee above the supported maximum.
    InvalidConfiguration,
    /// A room with this id is already on record.
    RoomAlreadyExists,
    /// The room no longer takes players.
    RoomNotWaiting,
    /// The room is not in play.
    RoomNotActive,
    /// Every seat of the room is taken.
    RoomFull,
    /// The player already holds a seat in the room.
    AlreadyJoined,
    /// The player holds no seat in the room.
    PlayerNotInRoom,
    /// The caller is not the room's authority.
    Unauthorized,
    /// The value transfer service reported insufficient funds.
    InsufficientFunds,
    /// The value transfer service rejected the transfer.
    TransferRejected,
    /// An amount left the range of the pool arithmetic. No transition
    /// returns this: every amount is proved to stay in range.
    ArithmeticOverflow,
}

/// The failure of a transition whose transfer failed with `e`: the same
/// failure, passed through.
pub open spec fn transfer_failure(e: TransferError) -> GameError {
    match e {
        TransferError::InsufficientFunds => GameError::InsufficientFunds,
        TransferError::TransferRejected => GameError::TransferRejected,
    }
}

impl From<TransferError> for GameError {
    /// Passes a failure of the value transfer service through unchanged.
    fn from(e: TransferError) -> (err: GameError) {
        match e {
            TransferError::InsufficientFunds => GameError::InsufficientFunds,
            TransferError::TransferRejected => GameError::TransferRejected,
        }
    }
}

impl FromSpecImpl<TransferError> for GameError {
    open spec fn obeys_from_spec() -> bool {
        true
    }

    open spec fn from_spec(e: TransferError) -> GameError {
        transfer_failure(e)
    }
}

} // verus!
