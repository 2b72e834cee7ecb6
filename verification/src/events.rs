//! What a transition reports: the event of a success, the error of a refusal.

use crate::account::AccountId;
use crate::registry::KittyIndex;
use vstd::prelude::*;

verus! {

/// Reported by a transition that went through.
#[derive(Clone, Copy, Debug, PartialEq, Eq)]
pub enum Event {
    /// A kitty came into being, by creation or by breeding: its owner and
    /// its number.
    KittyCreate(AccountId, KittyIndex),
    /// A kitty changed hands: the former owner, the new owner and the
    /// kitty's number.
    KittyTransfer(AccountId, AccountId, KittyIndex),
}

/// Why a transition was refused. A refused transition changes nothing.
#[derive(Clone, Copy, Debug, PartialEq, Eq)]
pub enum Error {
    /// The count has reached the largest kitty number: no number is left.
    KittiesCountOverflow,
    /// The caller is not the owner of the kitty, or there is no such kitty.
    NotOwner,
    /// Both parents are the same kitty.
    SameParentIndex,
    /// A parent does not exist.
    InvalidKittyIndex,
}

} // verus!
