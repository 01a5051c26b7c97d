//! What the shop asks of the host's fund transfer, and what the host answers.

use vstd::prelude::*;
use crate::account::AccountId;
use crate::menu::Balance;

verus! {

/// A movement of funds: the request handed to the host before a payment is
/// recorded, and the record of the payment once it went through.
#[derive(Clone, Copy, Debug, PartialEq, Eq)]
pub struct Transfer {
    pub from: Option<AccountId>,
    pub to: Option<AccountId>,
    pub value: Balance,
}

/// What the host reported of a transfer. A transfer is atomic: it moved all
/// of the funds or none.
#[derive(Clone, Copy, Debug, PartialEq, Eq, Structural)]
pub enum TransferOutcome {
    Succeeded,
    Failed,
}

} // verus!
