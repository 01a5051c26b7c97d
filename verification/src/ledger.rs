//! The ledger as a mathematical value, and what each request does to it.
//!
//! Every request is described by two functions: one names the reason for
//! which it is rejected, if any, and one gives the ledger after the request.
//! A rejected request leaves the ledger as it was.

use vstd::prelude::*;
use crate::account::AccountId;
use crate::error::BurgerShopError;
use crate::menu::{all_amounts_positive, total_price_of, Balance, FoodItem};
use crate::order::{OrderView, Status};
use crate::transfer::{Transfer, TransferOutcome};

verus! {

/// The merchant and every order placed so far, in the order of their ids.
pub struct ShopView {
    pub merchant: AccountId,
    pub orders: Seq<OrderView>,
}

/// A request made of the shop, with everything that decides its outcome.
pub enum Operation {
    CreateOrder { customer: AccountId, items: Seq<FoodItem> },
    Pay { id: nat, caller: AccountId, tendered: nat, transfer: TransferOutcome },
    ChangeStatus { id: nat, new_status: Status, caller: AccountId },
    MarkCompleted { id: nat, caller: AccountId },
    TakeOrderAndPayment {
        caller: AccountId,
        items: Seq<FoodItem>,
        transferred: nat,
        transfer: TransferOutcome,
    },
}

/// `order` may stand at position `i` of a ledger that `merchant` keeps: it
/// carries the id `i`, is consistent in itself, has at least one line and no
/// line with amount zero, and was not placed by the merchant.
pub open spec fn fits(merchant: AccountId, order: OrderView, i: int) -> bool {
    &&& order.order_id == i
    &&& order.wf()
    &&& order.list_of_items.len() > 0
    &&& all_amounts_positive(order.list_of_items)
    &&& order.customer != merchant
}

impl ShopView {
    /// The ledger of a shop that has taken no order yet.
    pub open spec fn init(merchant: AccountId) -> ShopView {
        ShopView { merchant, orders: Seq::empty() }
    }

    /// The ledger holds an order with this id.
    pub open spec fn has_order(self, id: nat) -> bool {
        id < self.orders.len()
    }

    /// What a search for the order `id` returns: the order, or
    /// `OrderNotFound` where the ledger holds none.
    pub open spec fn lookup(self, id: nat) -> Result<OrderView, BurgerShopError> {
        if self.has_order(id) {
            Ok(self.orders[id as int])
        } else {
            Err(BurgerShopError::OrderNotFound)
        }
    }

    /// The order at position `i` may stand there: see `fits`.
    pub open spec fn entry_wf(self, i: int) -> bool {
        fits(self.merchant, self.orders[i], i)
    }

    /// Every order of the ledger may stand where it stands.
    pub open spec fn wf(self) -> bool {
        forall|i: int| 0 <= i < self.orders.len() ==> #[trigger] self.entry_wf(i)
    }

    /// The ledger with the order `id` replaced by `order`.
    pub open spec fn with_order(self, id: nat, order: OrderView) -> ShopView {
        ShopView { orders: self.orders.update(id as int, order), ..self }
    }

    /// The ledger with `order` appended.
    pub open spec fn with_new_order(self, order: OrderView) -> ShopView {
        ShopView { orders: self.orders.push(order), ..self }
    }

    // Placing an order

    /// Why `customer` cannot place an order for `items`, if so: the list is
    /// empty or has a line with amount zero, or else the customer is the
    /// merchant.
    pub open spec fn creation_error(self, customer: AccountId, items: Seq<FoodItem>) -> Option<
        BurgerShopError,
    > {
        if items.len() == 0 || !all_amounts_positive(items) {
            Some(BurgerShopError::EmptyOrder)
        } else if customer == self.merchant {
            Some(BurgerShopError::UnauthorizedCreator)
        } else {
            None
        }
    }

    /// The ledger after `customer` asked to place an order for `items`: the
    /// new order is appended under the next id, unpaid.
    pub open spec fn after_create(self, customer: AccountId, items: Seq<FoodItem>) -> ShopView {
        if self.creation_error(customer, items) is None {
            self.with_new_order(OrderView::fresh(self.orders.len(), customer, items))
        } else {
            self
        }
    }

    // Paying for an order

    /// Why `caller` cannot pay `tendered` for the order `id`, if so: the
    /// ledger holds no such order, or else the order itself turns the
    /// payment down.
    pub open spec fn payment_error(self, id: nat, caller: AccountId, tendered: nat) -> Option<
        BurgerShopError,
    > {
        if !self.has_order(id) {
            Some(BurgerShopError::OrderNotFound)
        } else {
            self.orders[id as int].payment_error(caller, tendered)
        }
    }

    /// The transfer that pays for the order `id`: from its customer to the
    /// merchant.
    pub open spec fn payment_transfer(self, id: nat, value: Balance) -> Transfer {
        Transfer {
            from: Some(self.orders[id as int].customer),
            to: Some(self.merchant),
            value,
        }
    }

    /// What the payment request returns, given what the host reported of the
    /// transfer. The transfer only matters to a request that is in order.
    pub open spec fn pay_result(
        self,
        id: nat,
        caller: AccountId,
        tendered: nat,
        transfer: TransferOutcome,
    ) -> Result<(), BurgerShopError> {
        match self.payment_error(id, caller, tendered) {
            Some(e) => Err(e),
            None => match transfer {
                TransferOutcome::Succeeded => Ok(()),
                TransferOutcome::Failed => Err(BurgerShopError::PaymentError),
            },
        }
    }

    /// The ledger after the payment request: where it succeeds, the order is
    /// paid for and its preparation begins.
    pub open spec fn after_pay(
        self,
        id: nat,
        caller: AccountId,
        tendered: nat,
        transfer: TransferOutcome,
    ) -> ShopView {
        if self.pay_result(id, caller, tendered, transfer) is Ok {
            self.with_order(id, self.orders[id as int].paid_for())
        } else {
            self
        }
    }

    // Moving an order along

    /// Why `caller` cannot set the status of the order `id`, if so.
    pub open spec fn status_change_error(self, id: nat, caller: AccountId) -> Option<
        BurgerShopError,
    > {
        if !self.has_order(id) {
            Some(BurgerShopError::OrderNotFound)
        } else if caller != self.merchant {
            Some(BurgerShopError::Unauthorized)
        } else if self.orders[id as int].completed {
            Some(BurgerShopError::AlreadyCompleted)
        } else if !self.orders[id as int].paid {
            Some(BurgerShopError::NotYetPaid)
        } else {
            None
        }
    }

    /// The ledger after `caller` asked to set the status of the order `id`
    /// to `new_status`. Any status may follow any other.
    pub open spec fn after_change_status(
        self,
        id: nat,
        new_status: Status,
        caller: AccountId,
    ) -> ShopView {
        if self.status_change_error(id, caller) is None {
            self.with_order(id, self.orders[id as int].with_status(new_status))
        } else {
            self
        }
    }

    // Completing an order

    /// Why `caller` cannot mark the order `id` as completed, if so.
    pub open spec fn completion_error(self, id: nat, caller: AccountId) -> Option<
        BurgerShopError,
    > {
        if !self.has_order(id) {
            Some(BurgerShopError::OrderNotFound)
        } else if caller != self.merchant {
            Some(BurgerShopError::Unauthorized)
        } else if self.orders[id as int].completed {
            Some(BurgerShopError::AlreadyCompleted)
        } else if !(self.orders[id as int].paid && self.orders[id as int].status
            == Status::Delivered) {
            Some(BurgerShopError::IncompleteOrder)
        } else {
            None
        }
    }

    /// The ledger after `caller` asked to mark the order `id` as completed.
    pub open spec fn after_mark_completed(self, id: nat, caller: AccountId) -> ShopView {
        if self.completion_error(id, caller) is None {
            self.with_order(id, self.orders[id as int].finished())
        } else {
            self
        }
    }

    // Placing and paying in one request

    /// Why `caller` cannot place an order for `items` and pay `transferred`
    /// for it at once, if so: what would keep the order from being placed,
    /// or else an amount that is not the price of the items.
    pub open spec fn order_and_payment_error(
        self,
        caller: AccountId,
        items: Seq<FoodItem>,
        transferred: nat,
    ) -> Option<BurgerShopError> {
        match self.creation_error(caller, items) {
            Some(e) => Some(e),
            None => if transferred != total_price_of(items) {
                Some(BurgerShopError::IncorrectAmount)
            } else {
                None
            },
        }
    }

    /// The transfer that pays for an order which `caller` places and pays
    /// for at once.
    pub open spec fn order_transfer(self, caller: AccountId, value: Balance) -> Transfer {
        Transfer { from: Some(caller), to: Some(self.merchant), value }
    }

    /// The order that is recorded when `caller` places an order for `items`
    /// and pays for it at once.
    pub open spec fn paid_order(self, caller: AccountId, items: Seq<FoodItem>) -> OrderView {
        OrderView::fresh(self.orders.len(), caller, items).paid_for()
    }

    /// What the request to place and pay at once returns, given what the
    /// host reported of the transfer: the order as it is recorded, or why
    /// none was. The transfer only matters to a request that is in order.
    pub open spec fn take_order_result(
        self,
        caller: AccountId,
        items: Seq<FoodItem>,
        transferred: nat,
        transfer: TransferOutcome,
    ) -> Result<OrderView, BurgerShopError> {
        match self.order_and_payment_error(caller, items, transferred) {
            Some(e) => Err(e),
            None => match transfer {
                TransferOutcome::Succeeded => Ok(self.paid_order(caller, items)),
                TransferOutcome::Failed => Err(BurgerShopError::PaymentError),
            },
        }
    }

    /// The ledger after `caller` asked to place and pay at once: where the
    /// request succeeds, the paid order is appended under the next id.
    pub open spec fn after_take_order_and_payment(
        self,
        caller: AccountId,
        items: Seq<FoodItem>,
        transferred: nat,
        transfer: TransferOutcome,
    ) -> ShopView {
        if self.take_order_result(caller, items, transferred, transfer) is Ok {
            self.with_new_order(self.paid_order(caller, items))
        } else {
            self
        }
    }

    // Histories

    /// The ledger after the request `op`.
    pub open spec fn apply(self, op: Operation) -> ShopView {
        match op {
            Operation::CreateOrder { customer, items } => self.after_create(customer, items),
            Operation::Pay { id, caller, tendered, transfer } => self.after_pay(
                id,
                caller,
                tendered,
                transfer,
            ),
            Operation::ChangeStatus { id, new_status, caller } => self.after_change_status(
                id,
                new_status,
                caller,
            ),
            Operation::MarkCompleted { id, caller } => self.after_mark_completed(id, caller),
            Operation::TakeOrderAndPayment {
                caller,
                items,
                transferred,
                transfer,
            } => self.after_take_order_and_payment(caller, items, transferred, transfer),
        }
    }

    /// The ledger after the requests `ops`, made one after the other.
    pub open spec fn replay(self, ops: Seq<Operation>) -> ShopView
        decreases ops.len(),
    {
        if ops.len() == 0 {
            self
        } else {
            self.replay(ops.drop_last()).apply(ops.last())
        }
    }
}

} // verus!
