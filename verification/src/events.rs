//! Notifications the protocol emits for off-chain listeners.

use vstd::prelude::*;
use crate::state::Pubkey;

verus! {

/// Fired exactly once per curve, on the transition to completed: carries the
/// actor that triggered the crossing swap, the token mint, and the curve
/// record itself.
#[derive(Clone, Copy, Debug, PartialEq, Eq, Structural)]
pub struct CompleteEvent {
    pub user: Pubkey,
    pub mint: Pubkey,
    pub bonding_curve: Pubkey,
}

} // verus!
