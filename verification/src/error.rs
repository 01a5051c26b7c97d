//! The reasons for which the shop turns a request down.

use vstd::prelude::*;

verus! {

/// Why a request was rejected. A rejected request leaves the ledger as it was.
#[derive(Clone, Copy, Debug, PartialEq, Eq, Structural)]
pub enum BurgerShopError {
    /// The order has no line, or a line with amount zero.
    EmptyOrder,
    /// The merchant tried to place an order with itself.
    UnauthorizedCreator,
    /// The ledger holds no order with that id.
    OrderNotFound,
    /// The order has been paid for already.
    AlreadyPaid,
    /// The caller is not the account that this request is reserved for.
    Unauthorized,
    /// The order has been completed; nothing about it changes any more.
    AlreadyCompleted,
    /// The order has left the state in which it can be paid for.
    InvalidState,
    /// The amount tendered differs from the order's total price.
    IncorrectAmount,
    /// The host could not move the funds.
    PaymentError,
    /// The order has not been paid for yet.
    NotYetPaid,
    /// The order is not both paid for and delivered.
    IncompleteOrder,
}

} // verus!
