//! The shop: its ledger of orders, and how they are paid for and delivered.

use vstd::prelude::*;
use crate::account::AccountId;
use crate::error::BurgerShopError;
use crate::laws::lemma_apply_keeps_wf;
use crate::ledger::{fits, Operation, ShopView};
use crate::menu::{all_amounts_positive, Balance, FoodItem};
use crate::order::{viewed, Order, Status};
use crate::transfer::{Transfer, TransferOutcome};

verus! {

/// A shop: the merchant's identity and the orders taken so far. The order
/// with id `i` is the `i`-th that was placed, counting from zero; orders are
/// never removed.
pub struct BurgerShop {
    merchant: AccountId,
    orders: Vec<Order>,
}

/// The ledger that `merchant` keeps when `orders` are its orders.
pub open spec fn ledger_of(merchant: AccountId, orders: Seq<Order>) -> ShopView {
    ShopView { merchant, orders: Seq::new(orders.len(), |i: int| orders[i]@) }
}

/// `listing` gives the orders of `ledger` one by one, each with its id.
pub open spec fn lists(listing: Seq<(u32, Order)>, ledger: ShopView) -> bool {
    &&& listing.len() == ledger.orders.len()
    &&& forall|i: int|
        0 <= i < listing.len() ==> (#[trigger] listing[i]).0 == i && listing[i].1@
            == ledger.orders[i]
}

/// The ledger that `merchant` keeps when `listing` gives its orders.
pub open spec fn listed(merchant: AccountId, listing: Seq<(u32, Order)>) -> ShopView {
    ShopView { merchant, orders: Seq::new(listing.len(), |i: int| listing[i].1@) }
}

impl View for BurgerShop {
    type V = ShopView;

    closed spec fn view(&self) -> ShopView {
        ledger_of(self.merchant, self.orders@)
    }
}

impl BurgerShop {
    /// Every shop keeps a well-formed ledger.
    #[verifier::type_invariant]
    spec fn inv(&self) -> bool {
        self@.wf()
    }

    /// A shop run by `merchant` that has taken no order yet.
    pub fn new(merchant: AccountId) -> (shop: Self)
        ensures
            shop@ == ShopView::init(merchant),
            shop@.wf(),
    {
        let shop = BurgerShop { merchant, orders: Vec::new() };
        assert(shop@.orders =~= ShopView::init(merchant).orders);
        shop
    }

    /// The shop of `merchant` whose orders are those of `listing`, as
    /// `list_orders` gave them. There is such a shop where each order stands
    /// under its own id, the ids count up from zero, and the orders make a
    /// well-formed ledger; where there is none, nothing is returned.
    pub fn from_orders(merchant: AccountId, listing: Vec<(u32, Order)>) -> (restored: Option<Self>)
        ensures
            match restored {
                Some(shop) => shop@ == listed(merchant, listing@) && lists(listing@, shop@)
                    && shop@.wf(),
                None => !(lists(listing@, listed(merchant, listing@)) && listed(
                    merchant,
                    listing@,
                ).wf()),
            },
    {
        let ghost ledger = listed(merchant, listing@);
        let mut orders: Vec<Order> = Vec::new();
        let mut i: usize = 0;
        while i < listing.len()
            invariant
                i <= listing.len(),
                orders@.len() == i,
                ledger == listed(merchant, listing@),
                forall|j: int|
                    0 <= j < i ==> (#[trigger] listing@[j]).0 == j && fits(
                        merchant,
                        listing@[j].1@,
                        j,
                    ) && orders@[j]@ == listing@[j].1@,
            decreases listing.len() - i,
        {
            if !stands_at(merchant, &listing[i], i) {
                proof {
                    if ledger.wf() {
                        assert(ledger.entry_wf(i as int));
                    }
                }
                return None;
            }
            orders.push(listing[i].1.clone());
            i += 1;
        }
        proof {
            let kept = ledger_of(merchant, orders@);
            assert(kept.orders =~= ledger.orders);
            assert forall|j: int| 0 <= j < kept.orders.len() implies #[trigger] kept.entry_wf(
                j,
            ) by {
                assert(listing@[j].0 == j);
            }
        }
        Some(BurgerShop { merchant, orders })
    }

    /// The account that runs the shop.
    pub fn merchant(&self) -> (merchant: AccountId)
        ensures
            merchant == self@.merchant,
    {
        self.merchant
    }

    /// How many orders the shop has taken. The next order gets this number
    /// as its id.
    pub fn order_count(&self) -> (count: usize)
        ensures
            count == self@.orders.len(),
            count <= u32::MAX + 1,
    {
        proof {
            use_type_invariant(self);
            if self.orders.len() > 0 {
                assert(self@.entry_wf(self.orders.len() - 1));
            }
        }
        self.orders.len()
    }

    /// The order with the id `id`, which the ledger must hold.
    pub fn get_single_order(&self, id: u32) -> (order: Order)
        requires
            self@.has_order(id as nat),
        ensures
            order@ == self@.orders[id as int],
            self@.wf(),
    {
        proof {
            use_type_invariant(self);
        }
        self.orders[id as usize].clone()
    }

    /// The order with the id `id`, or `OrderNotFound` where the ledger holds
    /// none.
    pub fn get_order(&self, id: u32) -> (found: Result<Order, BurgerShopError>)
        ensures
            viewed(found) == self@.lookup(id as nat),
            self@.wf(),
    {
        proof {
            use_type_invariant(self);
        }
        if (id as usize) < self.orders.len() {
            Ok(self.get_single_order(id))
        } else {
            Err(BurgerShopError::OrderNotFound)
        }
    }

    /// Every order with its id, in the order in which they were placed.
    pub fn list_orders(&self) -> (listing: Vec<(u32, Order)>)
        ensures
            lists(listing@, self@),
            self@.wf(),
    {
        proof {
            use_type_invariant(self);
        }
        let mut listing: Vec<(u32, Order)> = Vec::new();
        let mut i: usize = 0;
        while i < self.orders.len()
            invariant
                i <= self.orders.len(),
                self@.wf(),
                listing@.len() == i,
                forall|j: int|
                    0 <= j < i ==> (#[trigger] listing@[j]).0 == j && listing@[j].1@
                        == self@.orders[j],
            decreases self.orders.len() - i,
        {
            let order = self.orders[i].clone();
            assert(self@.entry_wf(i as int));
            listing.push((order.order_id, order));
            i += 1;
        }
        listing
    }

    /// Every order with its id, in the order in which they were placed, or
    /// `None` where the shop has taken no order yet.
    pub fn get_orders(&self) -> (listing: Option<Vec<(u32, Order)>>)
        ensures
            match listing {
                Some(all) => all@.len() > 0 && lists(all@, self@),
                None => self@.orders.len() == 0,
            },
            self@.wf(),
    {
        if self.orders.len() > 0 {
            Some(self.list_orders())
        } else {
            proof {
                use_type_invariant(self);
            }
            None
        }
    }

    /// Places an order for `line_items` on behalf of `customer` and returns
    /// its id. The order is rejected as `EmptyOrder` where it has no line or
    /// a line with amount zero, and else as `UnauthorizedCreator` where the
    /// customer is the merchant. The ids of a ledger are `u32`, so the
    /// ledger must have one left.
    pub fn create_order(&mut self, customer: AccountId, line_items: Vec<FoodItem>) -> (placed:
        Result<u32, BurgerShopError>)
        requires
            old(self)@.orders.len() <= u32::MAX,
        ensures
            placed == match old(self)@.creation_error(customer, line_items@) {
                Some(e) => Err(e),
                None => Ok(old(self)@.orders.len() as u32),
            },
            final(self)@ == old(self)@.after_create(customer, line_items@),
            placed is Err ==> final(self)@ == old(self)@,
            final(self)@.wf(),
    {
        proof {
            use_type_invariant(&*self);
        }
        if !has_only_positive_amounts(&line_items) {
            return Err(BurgerShopError::EmptyOrder);
        }
        if customer == self.merchant {
            return Err(BurgerShopError::UnauthorizedCreator);
        }
        let id: u32 = self.orders.len() as u32;
        let order = Order::new(line_items, customer, id);
        proof {
            lemma_apply_keeps_wf(
                self@,
                Operation::CreateOrder { customer, items: order@.list_of_items },
            );
        }
        self.append(order);
        Ok(id)
    }

    /// Tests whether `caller` may pay `tendered_amount` for the order `id`,
    /// and returns the transfer that the payment calls for, from the
    /// customer to the merchant. The request is rejected as `OrderNotFound`
    /// where the ledger holds no such order, and else for the reason for
    /// which the order itself turns the payment down.
    pub fn check_payment(&self, id: u32, caller: AccountId, tendered_amount: Balance) -> (request:
        Result<Transfer, BurgerShopError>)
        ensures
            request == match self@.payment_error(id as nat, caller, tendered_amount as nat) {
                Some(e) => Err(e),
                None => Ok(self@.payment_transfer(id as nat, tendered_amount)),
            },
    {
        if (id as usize) >= self.orders.len() {
            return Err(BurgerShopError::OrderNotFound);
        }
        let order = &self.orders[id as usize];
        match order.check_payment(caller, tendered_amount) {
            Err(e) => Err(e),
            Ok(()) => Ok(
                Transfer {
                    from: Some(order.customer),
                    to: Some(self.merchant),
                    value: tendered_amount,
                },
            ),
        }
    }

    /// Records the payment of `tendered_amount` by `caller` for the order
    /// `id`, given what the host reported of the transfer that
    /// `check_payment` called for. A request that `check_payment` rejects is
    /// rejected here for the same reason, whatever the host reported. Else
    /// the payment fails with `PaymentError` where the transfer failed, and
    /// where it succeeded the order is paid for and its preparation begins.
    pub fn pay(
        &mut self,
        id: u32,
        caller: AccountId,
        tendered_amount: Balance,
        transfer: TransferOutcome,
    ) -> (settled: Result<(), BurgerShopError>)
        ensures
            settled == old(self)@.pay_result(id as nat, caller, tendered_amount as nat, transfer),
            final(self)@ == old(self)@.after_pay(
                id as nat,
                caller,
                tendered_amount as nat,
                transfer,
            ),
            settled is Err ==> final(self)@ == old(self)@,
            final(self)@.wf(),
    {
        proof {
            use_type_invariant(&*self);
        }
        match self.check_payment(id, caller, tendered_amount) {
            Err(e) => Err(e),
            Ok(_) => match transfer {
                TransferOutcome::Failed => Err(BurgerShopError::PaymentError),
                TransferOutcome::Succeeded => {
                    let mut order = self.orders[id as usize].clone();
                    order.paid = true;
                    order.status = Status::Preparing;
                    proof {
                        lemma_apply_keeps_wf(
                            self@,
                            Operation::Pay {
                                id: id as nat,
                                caller,
                                tendered: tendered_amount as nat,
                                transfer,
                            },
                        );
                    }
                    self.put(id, order);
                    Ok(())
                },
            },
        }
    }

    /// Sets the status of the order `id` to `new_status` on behalf of
    /// `caller`, and returns the new status. The conditions are tested in
    /// this order: the order exists (`OrderNotFound`), the caller is the
    /// merchant (`Unauthorized`), the order is not completed
    /// (`AlreadyCompleted`) and is paid for (`NotYetPaid`). Any status may
    /// follow any other.
    pub fn change_status(&mut self, id: u32, new_status: Status, caller: AccountId) -> (changed:
        Result<Status, BurgerShopError>)
        ensures
            changed == match old(self)@.status_change_error(id as nat, caller) {
                Some(e) => Err(e),
                None => Ok(new_status),
            },
            final(self)@ == old(self)@.after_change_status(id as nat, new_status, caller),
            changed is Err ==> final(self)@ == old(self)@,
            final(self)@.wf(),
    {
        proof {
            use_type_invariant(&*self);
        }
        if (id as usize) >= self.orders.len() {
            return Err(BurgerShopError::OrderNotFound);
        }
        if caller != self.merchant {
            return Err(BurgerShopError::Unauthorized);
        }
        let stored = &self.orders[id as usize];
        if stored.completed {
            return Err(BurgerShopError::AlreadyCompleted);
        }
        if !stored.paid {
            return Err(BurgerShopError::NotYetPaid);
        }
        let mut order = stored.clone();
        order.status = new_status;
        proof {
            lemma_apply_keeps_wf(
                self@,
                Operation::ChangeStatus { id: id as nat, new_status, caller },
            );
        }
        self.put(id, order);
        Ok(new_status)
    }

    /// Marks the order `id` as completed on behalf of `caller`. The
    /// conditions are tested in this order: the order exists
    /// (`OrderNotFound`), the caller is the merchant (`Unauthorized`), the
    /// order is not completed yet (`AlreadyCompleted`), and it is paid for
    /// and delivered (`IncompleteOrder`).
    pub fn mark_completed(&mut self, id: u32, caller: AccountId) -> (completed: Result<
        (),
        BurgerShopError,
    >)
        ensures
            completed == match old(self)@.completion_error(id as nat, caller) {
                Some(e) => Err::<(), BurgerShopError>(e),
                None => Ok(()),
            },
            final(self)@ == old(self)@.after_mark_completed(id as nat, caller),
            completed is Err ==> final(self)@ == old(self)@,
            final(self)@.wf(),
    {
        proof {
            use_type_invariant(&*self);
        }
        if (id as usize) >= self.orders.len() {
            return Err(BurgerShopError::OrderNotFound);
        }
        if caller != self.merchant {
            return Err(BurgerShopError::Unauthorized);
        }
        let stored = &self.orders[id as usize];
        if stored.completed {
            return Err(BurgerShopError::AlreadyCompleted);
        }
        if !(stored.paid && stored.status == Status::Delivered) {
            return Err(BurgerShopError::IncompleteOrder);
        }
        let mut order = stored.clone();
        order.completed = true;
        proof {
            lemma_apply_keeps_wf(self@, Operation::MarkCompleted { id: id as nat, caller });
        }
        self.put(id, order);
        Ok(())
    }

    /// Tests whether `caller` may place an order for `list_of_items` and pay
    /// `transferred_value` for it at once, and returns the transfer that the
    /// payment calls for, from the caller to the merchant. The request is
    /// rejected for what would keep the order from being placed, and else as
    /// `IncorrectAmount` where the value is not the price of the items.
    pub fn check_order_and_payment(
        &self,
        caller: AccountId,
        list_of_items: &Vec<FoodItem>,
        transferred_value: Balance,
    ) -> (request: Result<Transfer, BurgerShopError>)
        ensures
            request == match self@.order_and_payment_error(
                caller,
                list_of_items@,
                transferred_value as nat,
            ) {
                Some(e) => Err(e),
                None => Ok(self@.order_transfer(caller, transferred_value)),
            },
    {
        if !has_only_positive_amounts(list_of_items) {
            Err(BurgerShopError::EmptyOrder)
        } else if caller == self.merchant {
            Err(BurgerShopError::UnauthorizedCreator)
        } else if transferred_value != Order::total_price(list_of_items) {
            Err(BurgerShopError::IncorrectAmount)
        } else {
            Ok(Transfer { from: Some(caller), to: Some(self.merchant), value: transferred_value })
        }
    }

    /// Places an order for `list_of_items` on behalf of `caller` and records
    /// its payment with `transferred_value`, given what the host reported of
    /// the transfer that `check_order_and_payment` called for. A request
    /// that `check_order_and_payment` rejects is rejected here for the same
    /// reason, whatever the host reported. Else the request fails with
    /// `PaymentError` where the transfer failed, and where it succeeded the
    /// order is recorded as paid for, with its preparation begun, and
    /// returned. The ids of a ledger are `u32`, so the ledger must have one
    /// left.
    pub fn take_order_and_payment(
        &mut self,
        caller: AccountId,
        list_of_items: Vec<FoodItem>,
        transferred_value: Balance,
        transfer: TransferOutcome,
    ) -> (taken: Result<Order, BurgerShopError>)
        requires
            old(self)@.orders.len() <= u32::MAX,
        ensures
            viewed(taken) == old(self)@.take_order_result(
                caller,
                list_of_items@,
                transferred_value as nat,
                transfer,
            ),
            final(self)@ == old(self)@.after_take_order_and_payment(
                caller,
                list_of_items@,
                transferred_value as nat,
                transfer,
            ),
            taken is Err ==> final(self)@ == old(self)@,
            final(self)@.wf(),
    {
        proof {
            use_type_invariant(&*self);
        }
        match self.check_order_and_payment(caller, &list_of_items, transferred_value) {
            Err(e) => Err(e),
            Ok(_) => match transfer {
                TransferOutcome::Failed => Err(BurgerShopError::PaymentError),
                TransferOutcome::Succeeded => {
                    let id: u32 = self.orders.len() as u32;
                    let mut order = Order::new(list_of_items, caller, id);
                    order.paid = true;
                    order.status = Status::Preparing;
                    proof {
                        lemma_apply_keeps_wf(
                            self@,
                            Operation::TakeOrderAndPayment {
                                caller,
                                items: order@.list_of_items,
                                transferred: transferred_value as nat,
                                transfer,
                            },
                        );
                    }
                    self.append(order.clone());
                    Ok(order)
                },
            },
        }
    }

    /// Replaces the order `id` by `order`.
    fn put(&mut self, id: u32, order: Order)
        requires
            old(self)@.has_order(id as nat),
            old(self)@.with_order(id as nat, order@).wf(),
        ensures
            final(self)@ == old(self)@.with_order(id as nat, order@),
    {
        let mut orders: Vec<Order> = Vec::new();
        std::mem::swap(&mut self.orders, &mut orders);
        orders.set(id as usize, order);
        proof {
            assert(ledger_of(self.merchant, orders@).orders =~= old(self)@.with_order(
                id as nat,
                order@,
            ).orders);
        }
        self.orders = orders;
    }

    /// Appends `order` to the ledger.
    fn append(&mut self, order: Order)
        requires
            old(self)@.with_new_order(order@).wf(),
        ensures
            final(self)@ == old(self)@.with_new_order(order@),
    {
        let mut orders: Vec<Order> = Vec::new();
        std::mem::swap(&mut self.orders, &mut orders);
        orders.push(order);
        proof {
            assert(ledger_of(self.merchant, orders@).orders =~= old(self)@.with_new_order(
                order@,
            ).orders);
        }
        self.orders = orders;
    }
}

/// Tests that `entry` gives, under its own id, an order that may stand at
/// position `i` of a ledger that `merchant` keeps.
fn stands_at(merchant: AccountId, entry: &(u32, Order), i: usize) -> (ok: bool)
    ensures
        ok == (entry.0 == i && fits(merchant, entry.1@, i as int)),
{
    let order = &entry.1;
    if i > u32::MAX as usize || entry.0 != i as u32 || order.order_id != entry.0 {
        return false;
    }
    if order.completed && !(order.paid && order.status == Status::Delivered) {
        return false;
    }
    if !order.paid && order.status != Status::GettingIngredients {
        return false;
    }
    if order.customer == merchant {
        return false;
    }
    has_only_positive_amounts(&order.list_of_items) && order.total_price == Order::total_price(
        &order.list_of_items,
    )
}

/// Tests that `items` has a line and no line with amount zero.
fn has_only_positive_amounts(items: &Vec<FoodItem>) -> (ok: bool)
    ensures
        ok == (items@.len() > 0 && all_amounts_positive(items@)),
{
    if items.len() == 0 {
        return false;
    }
    let mut i: usize = 0;
    while i < items.len()
        invariant
            i <= items.len(),
            forall|j: int| 0 <= j < i ==> (#[trigger] items@[j]).amount >= 1,
        decreases items.len() - i,
    {
        if items[i].amount == 0 {
            return false;
        }
        i += 1;
    }
    true
}

} // verus!
