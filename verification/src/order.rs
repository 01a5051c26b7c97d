//! Orders and the states they move through.

use vstd::prelude::*;
use crate::account::AccountId;
use crate::error::BurgerShopError;
use crate::menu::{lemma_total_price_bounded, max_line_price, total_price_of, Balance, FoodItem};

verus! {

/// Where an order stands on its way to the customer.
#[derive(Clone, Copy, Debug, PartialEq, Eq, Structural)]
pub enum Status {
    GettingIngredients,
    Preparing,
    SentForDelivery,
    Delivered,
}

/// One customer's purchase, as the ledger records it.
#[derive(Debug, PartialEq, Eq)]
pub struct Order {
    pub list_of_items: Vec<FoodItem>,
    pub customer: AccountId,
    pub total_price: Balance,
    pub paid: bool,
    pub order_id: u32,
    pub status: Status,
    pub completed: bool,
}

/// An order as a mathematical value.
pub struct OrderView {
    pub order_id: nat,
    pub customer: AccountId,
    pub list_of_items: Seq<FoodItem>,
    pub total_price: nat,
    pub paid: bool,
    pub status: Status,
    pub completed: bool,
}

impl OrderView {
    /// The order as it is when it has just been placed: priced, unpaid, and
    /// waiting for its ingredients.
    pub open spec fn fresh(
        order_id: nat,
        customer: AccountId,
        list_of_items: Seq<FoodItem>,
    ) -> OrderView {
        OrderView {
            order_id,
            customer,
            list_of_items,
            total_price: total_price_of(list_of_items),
            paid: false,
            status: Status::GettingIngredients,
            completed: false,
        }
    }

    /// The order's flags agree with one another and its price is the price
    /// of its lines: a completed order is paid for and delivered, and an
    /// unpaid order is still waiting for its ingredients.
    pub open spec fn wf(self) -> bool {
        &&& self.total_price == total_price_of(self.list_of_items)
        &&& self.completed ==> self.paid && self.status == Status::Delivered
        &&& !self.paid ==> self.status == Status::GettingIngredients
    }

    /// Why `caller` cannot pay `tendered` for this order, if so. The
    /// conditions are tested in this order, and the first that fails is
    /// named: the order is unpaid, is the caller's own, is not completed,
    /// still waits for its ingredients, and costs what is tendered.
    pub open spec fn payment_error(self, caller: AccountId, tendered: nat) -> Option<
        BurgerShopError,
    > {
        if self.paid {
            Some(BurgerShopError::AlreadyPaid)
        } else if caller != self.customer {
            Some(BurgerShopError::Unauthorized)
        } else if self.completed {
            Some(BurgerShopError::AlreadyCompleted)
        } else if self.status != Status::GettingIngredients {
            Some(BurgerShopError::InvalidState)
        } else if tendered != self.total_price {
            Some(BurgerShopError::IncorrectAmount)
        } else {
            None
        }
    }

    /// The order once it is paid for: its preparation begins.
    pub open spec fn paid_for(self) -> OrderView {
        OrderView { paid: true, status: Status::Preparing, ..self }
    }

    /// The order with its status set to `status`.
    pub open spec fn with_status(self, status: Status) -> OrderView {
        OrderView { status, ..self }
    }

    /// The order once it is completed.
    pub open spec fn finished(self) -> OrderView {
        OrderView { completed: true, ..self }
    }
}

impl View for Order {
    type V = OrderView;

    open spec fn view(&self) -> OrderView {
        OrderView {
            order_id: self.order_id as nat,
            customer: self.customer,
            list_of_items: self.list_of_items@,
            total_price: self.total_price as nat,
            paid: self.paid,
            status: self.status,
            completed: self.completed,
        }
    }
}

/// The outcome of a request that returns an order, with the order as a
/// mathematical value.
pub open spec fn viewed(outcome: Result<Order, BurgerShopError>) -> Result<
    OrderView,
    BurgerShopError,
> {
    match outcome {
        Ok(order) => Ok(order@),
        Err(e) => Err(e),
    }
}

impl Clone for Order {
    fn clone(&self) -> (copy: Self)
        ensures
            copy@ == self@,
    {
        Order {
            list_of_items: self.list_of_items.clone(),
            customer: self.customer,
            total_price: self.total_price,
            paid: self.paid,
            order_id: self.order_id,
            status: self.status,
            completed: self.completed,
        }
    }
}

impl Order {
    /// A new order for `customer` under the id `id`: priced, unpaid, and
    /// waiting for its ingredients.
    pub fn new(list_of_items: Vec<FoodItem>, customer: AccountId, id: u32) -> (order: Self)
        ensures
            order@ == OrderView::fresh(id as nat, customer, list_of_items@),
    {
        let total_price: Balance = Order::total_price(&list_of_items);
        Self {
            list_of_items,
            customer,
            total_price,
            paid: false,
            order_id: id,
            status: Status::GettingIngredients,
            completed: false,
        }
    }

    /// Tests whether `caller` may pay `tendered_amount` for this order. The
    /// conditions are tested in this order, and the first that fails is
    /// named: the order is unpaid (`AlreadyPaid`), is the caller's own
    /// (`Unauthorized`), is not completed (`AlreadyCompleted`), still waits
    /// for its ingredients (`InvalidState`), and costs what is tendered
    /// (`IncorrectAmount`).
    pub fn check_payment(&self, caller: AccountId, tendered_amount: Balance) -> (checked: Result<
        (),
        BurgerShopError,
    >)
        ensures
            checked == match self@.payment_error(caller, tendered_amount as nat) {
                Some(e) => Err::<(), BurgerShopError>(e),
                None => Ok(()),
            },
    {
        if self.paid {
            Err(BurgerShopError::AlreadyPaid)
        } else if caller != self.customer {
            Err(BurgerShopError::Unauthorized)
        } else if self.completed {
            Err(BurgerShopError::AlreadyCompleted)
        } else if self.status != Status::GettingIngredients {
            Err(BurgerShopError::InvalidState)
        } else if tendered_amount != self.total_price {
            Err(BurgerShopError::IncorrectAmount)
        } else {
            Ok(())
        }
    }

    /// The price of a list of items: the sum of the prices of its lines.
    pub fn total_price(list_of_items: &Vec<FoodItem>) -> (total: Balance)
        ensures
            total == total_price_of(list_of_items@),
    {
        let mut total: Balance = 0;
        let mut i: usize = 0;
        while i < list_of_items.len()
            invariant
                i <= list_of_items.len(),
                total == total_price_of(list_of_items@.take(i as int)),
            decreases list_of_items.len() - i,
        {
            let line: Balance = list_of_items[i].price();
            proof {
                let seen = list_of_items@.take(i as int);
                let next = list_of_items@.take(i + 1);
                assert(next.drop_last() == seen);
                assert(next.last() == list_of_items@[i as int]);
                lemma_total_price_bounded(next);
                assert(next.len() * max_line_price() <= usize::MAX * max_line_price())
                    by (nonlinear_arith)
                    requires
                        next.len() <= usize::MAX,
                ;
            }
            total += line;
            i += 1;
        }
        assert(list_of_items@.take(i as int) == list_of_items@);
        total
    }
}

} // verus!
