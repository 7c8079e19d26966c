//! Escrow accounting and lifecycle rules of a pooled-stake game room.

pub mod error;
pub mod escrow;
pub mod identity;
pub mod lifecycle;
pub mod model;
pub mod record;
pub mod theorems;
