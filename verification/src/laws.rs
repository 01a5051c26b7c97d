//! What holds of the ledger whatever is asked of it.

use vstd::prelude::*;
use crate::account::AccountId;
use crate::error::BurgerShopError;
use crate::ledger::{Operation, ShopView};
use crate::menu::FoodItem;
use crate::order::{Order, OrderView, Status};
use crate::shop::{listed, lists};
use crate::transfer::TransferOutcome;

verus! {

/// A shop that has taken no order yet has a well-formed ledger.
pub proof fn lemma_new_ledger_is_wf(merchant: AccountId)
    ensures
        ShopView::init(merchant).wf(),
{
}

/// No request, accepted or rejected, makes a well-formed ledger ill-formed.
pub proof fn lemma_apply_keeps_wf(ledger: ShopView, op: Operation)
    requires
        ledger.wf(),
    ensures
        ledger.apply(op).wf(),
{
    let next = ledger.apply(op);
    assert forall|i: int| 0 <= i < next.orders.len() implies #[trigger] next.entry_wf(i) by {
        if i < ledger.orders.len() {
            assert(ledger.entry_wf(i));
        }
    }
}

/// No sequence of requests makes a well-formed ledger ill-formed.
pub proof fn lemma_replay_keeps_wf(ledger: ShopView, ops: Seq<Operation>)
    requires
        ledger.wf(),
    ensures
        ledger.replay(ops).wf(),
    decreases ops.len(),
{
    if ops.len() > 0 {
        lemma_replay_keeps_wf(ledger, ops.drop_last());
        lemma_apply_keeps_wf(ledger.replay(ops.drop_last()), ops.last());
    }
}

/// At every point in the life of a shop, whatever was asked of it since it
/// opened, each order that is completed is paid for and delivered.
pub proof fn lemma_completed_orders_are_paid_and_delivered(
    merchant: AccountId,
    ops: Seq<Operation>,
    id: nat,
)
    requires
        ShopView::init(merchant).replay(ops).has_order(id),
        ShopView::init(merchant).replay(ops).orders[id as int].completed,
    ensures
        ShopView::init(merchant).replay(ops).orders[id as int].paid,
        ShopView::init(merchant).replay(ops).orders[id as int].status == Status::Delivered,
{
    let ledger = ShopView::init(merchant).replay(ops);
    lemma_new_ledger_is_wf(merchant);
    lemma_replay_keeps_wf(ShopView::init(merchant), ops);
    assert(ledger.entry_wf(id as int));
}

/// The ledger only grows, and what it recorded of an order stays: a request
/// leaves the id, the customer, the lines and the price of every order as
/// they were, takes back neither a payment nor a completion, and changes
/// nothing at all of an order that is completed.
pub proof fn lemma_orders_are_kept(ledger: ShopView, op: Operation, id: nat)
    requires
        ledger.has_order(id),
    ensures
        ledger.apply(op).merchant == ledger.merchant,
        ledger.apply(op).orders.len() >= ledger.orders.len(),
        ledger.apply(op).orders[id as int].order_id == ledger.orders[id as int].order_id,
        ledger.apply(op).orders[id as int].customer == ledger.orders[id as int].customer,
        ledger.apply(op).orders[id as int].list_of_items
            == ledger.orders[id as int].list_of_items,
        ledger.apply(op).orders[id as int].total_price == ledger.orders[id as int].total_price,
        ledger.orders[id as int].paid ==> ledger.apply(op).orders[id as int].paid,
        ledger.orders[id as int].completed ==> ledger.apply(op).orders[id as int]
            == ledger.orders[id as int],
{
}

/// In a well-formed ledger no two orders share an id.
pub proof fn lemma_ids_are_unique(ledger: ShopView, first: nat, second: nat)
    requires
        ledger.wf(),
        ledger.has_order(first),
        ledger.has_order(second),
        ledger.orders[first as int].order_id == ledger.orders[second as int].order_id,
    ensures
        first == second,
{
    assert(ledger.entry_wf(first as int));
    assert(ledger.entry_wf(second as int));
}

/// An order becomes paid in one way only: its customer pays exactly its
/// total price, and the host moves the funds.
pub proof fn lemma_only_an_exact_payment_by_the_customer_pays(
    ledger: ShopView,
    op: Operation,
    id: nat,
)
    requires
        ledger.has_order(id),
        !ledger.orders[id as int].paid,
        ledger.apply(op).orders[id as int].paid,
    ensures
        op == (Operation::Pay {
            id,
            caller: ledger.orders[id as int].customer,
            tendered: ledger.orders[id as int].total_price,
            transfer: TransferOutcome::Succeeded,
        }),
        ledger.apply(op).orders[id as int] == ledger.orders[id as int].paid_for(),
{
}

/// The status of an order changes in two ways only: its payment starts the
/// preparation, and the merchant sets the status of an order that is paid
/// for and not completed.
pub proof fn lemma_only_a_payment_or_the_merchant_changes_the_status(
    ledger: ShopView,
    op: Operation,
    id: nat,
)
    requires
        ledger.has_order(id),
        ledger.apply(op).orders[id as int].status != ledger.orders[id as int].status,
    ensures
        ({
            &&& !ledger.orders[id as int].paid
            &&& ledger.apply(op).orders[id as int] == ledger.orders[id as int].paid_for()
        }) || ({
            &&& ledger.orders[id as int].paid
            &&& !ledger.orders[id as int].completed
            &&& op == (Operation::ChangeStatus {
                id,
                new_status: ledger.apply(op).orders[id as int].status,
                caller: ledger.merchant,
            })
        }),
{
}

/// An order becomes completed in one way only: the merchant marks it so
/// when it is paid for and delivered.
pub proof fn lemma_only_the_merchant_completes_a_delivered_order(
    ledger: ShopView,
    op: Operation,
    id: nat,
)
    requires
        ledger.has_order(id),
        !ledger.orders[id as int].completed,
        ledger.apply(op).orders[id as int].completed,
    ensures
        op == (Operation::MarkCompleted { id, caller: ledger.merchant }),
        ledger.orders[id as int].paid,
        ledger.orders[id as int].status == Status::Delivered,
        ledger.apply(op).orders[id as int] == ledger.orders[id as int].finished(),
{
}

/// Once an order has been marked as completed, the merchant's next request
/// to complete it is rejected as already completed, and the ledger stays as
/// the first request left it.
pub proof fn lemma_second_completion_is_rejected(ledger: ShopView, id: nat, caller: AccountId)
    requires
        ledger.completion_error(id, caller) is None,
    ensures
        ledger.after_mark_completed(id, caller).completion_error(id, ledger.merchant) == Some(
            BurgerShopError::AlreadyCompleted,
        ),
        ledger.after_mark_completed(id, caller).after_mark_completed(id, ledger.merchant)
            == ledger.after_mark_completed(id, caller),
{
}

/// Paying for an order starts its preparation, and after that only the
/// merchant sends it back to the start: where a request leaves a paid order
/// waiting for its ingredients, either the order was so before, or the
/// request was the merchant's, to set that very status.
pub proof fn lemma_only_the_merchant_sends_a_paid_order_back(
    ledger: ShopView,
    op: Operation,
    id: nat,
)
    requires
        ledger.apply(op).has_order(id),
        ledger.apply(op).orders[id as int].paid,
        ledger.apply(op).orders[id as int].status == Status::GettingIngredients,
    ensures
        ({
            &&& ledger.has_order(id)
            &&& ledger.orders[id as int].paid
            &&& ledger.orders[id as int].status == Status::GettingIngredients
        }) || op == (Operation::ChangeStatus {
            id,
            new_status: Status::GettingIngredients,
            caller: ledger.merchant,
        }),
{
}

/// An order without lines is rejected as empty, whoever places it, and the
/// ledger is as long as before.
pub proof fn lemma_empty_order_is_rejected(ledger: ShopView, customer: AccountId)
    ensures
        ledger.creation_error(customer, Seq::<FoodItem>::empty()) == Some(
            BurgerShopError::EmptyOrder,
        ),
        ledger.after_create(customer, Seq::<FoodItem>::empty()) == ledger,
        ledger.after_create(customer, Seq::<FoodItem>::empty()).orders.len()
            == ledger.orders.len(),
{
}

/// Once a payment for an order has gone through, every further payment for
/// it is rejected as already paid, whoever makes it and whatever the amount
/// and the host's answer, and the ledger stays as the first payment left it.
pub proof fn lemma_second_payment_is_rejected(
    ledger: ShopView,
    id: nat,
    caller: AccountId,
    tendered: nat,
    second_caller: AccountId,
    second_tendered: nat,
    second_transfer: TransferOutcome,
)
    requires
        ledger.pay_result(id, caller, tendered, TransferOutcome::Succeeded) is Ok,
    ensures
        ledger.after_pay(id, caller, tendered, TransferOutcome::Succeeded).pay_result(
            id,
            second_caller,
            second_tendered,
            second_transfer,
        ) == Err::<(), BurgerShopError>(BurgerShopError::AlreadyPaid),
        ledger.after_pay(id, caller, tendered, TransferOutcome::Succeeded).after_pay(
            id,
            second_caller,
            second_tendered,
            second_transfer,
        ) == ledger.after_pay(id, caller, tendered, TransferOutcome::Succeeded),
{
}

/// When the customer of an unpaid order tenders an amount other than its
/// total price, the payment is rejected as incorrect, whatever the host
/// would have answered, and the order stays unpaid.
pub proof fn lemma_wrong_amount_is_rejected(
    ledger: ShopView,
    id: nat,
    tendered: nat,
    transfer: TransferOutcome,
)
    requires
        ledger.wf(),
        ledger.has_order(id),
        !ledger.orders[id as int].paid,
        tendered != ledger.orders[id as int].total_price,
    ensures
        ledger.pay_result(id, ledger.orders[id as int].customer, tendered, transfer) == Err::<
            (),
            BurgerShopError,
        >(BurgerShopError::IncorrectAmount),
        ledger.after_pay(id, ledger.orders[id as int].customer, tendered, transfer) == ledger,
        !ledger.after_pay(
            id,
            ledger.orders[id as int].customer,
            tendered,
            transfer,
        ).orders[id as int].paid,
{
    assert(ledger.entry_wf(id as int));
}

/// When anyone but its customer tries to pay for an unpaid order, the
/// payment is rejected as unauthorized, whatever the amount and the host's
/// answer, and the ledger stays as it was.
pub proof fn lemma_stranger_cannot_pay(
    ledger: ShopView,
    id: nat,
    caller: AccountId,
    tendered: nat,
    transfer: TransferOutcome,
)
    requires
        ledger.has_order(id),
        !ledger.orders[id as int].paid,
        caller != ledger.orders[id as int].customer,
    ensures
        ledger.pay_result(id, caller, tendered, transfer) == Err::<(), BurgerShopError>(
            BurgerShopError::Unauthorized,
        ),
        ledger.after_pay(id, caller, tendered, transfer) == ledger,
{
}

/// In a well-formed ledger no payment is turned down for the state of the
/// order or for its completion: an order that has left the state in which it
/// can be paid for, or is completed, is paid for, and the payment is
/// rejected as already paid.
pub proof fn lemma_payment_is_not_rejected_for_state(
    ledger: ShopView,
    id: nat,
    caller: AccountId,
    tendered: nat,
)
    requires
        ledger.wf(),
    ensures
        ledger.payment_error(id, caller, tendered) != Some(BurgerShopError::InvalidState),
        ledger.payment_error(id, caller, tendered) != Some(BurgerShopError::AlreadyCompleted),
{
    if ledger.has_order(id) {
        assert(ledger.entry_wf(id as int));
    }
}

/// When the merchant tries to complete an order that is not delivered yet,
/// the request is rejected as incomplete and the ledger stays as it was.
pub proof fn lemma_undelivered_order_is_not_completed(ledger: ShopView, id: nat)
    requires
        ledger.wf(),
        ledger.has_order(id),
        ledger.orders[id as int].status != Status::Delivered,
    ensures
        ledger.completion_error(id, ledger.merchant) == Some(BurgerShopError::IncompleteOrder),
        ledger.after_mark_completed(id, ledger.merchant) == ledger,
{
    assert(ledger.entry_wf(id as int));
}

/// What `list_orders` gives of a shop restores that very shop: the listing
/// of a well-formed ledger is accepted by `from_orders`, and the ledger that
/// `from_orders` makes of it is the one that was listed.
pub proof fn lemma_listing_restores_ledger(listing: Seq<(u32, Order)>, ledger: ShopView)
    requires
        ledger.wf(),
        lists(listing, ledger),
    ensures
        listed(ledger.merchant, listing) == ledger,
        lists(listing, listed(ledger.merchant, listing)),
        listed(ledger.merchant, listing).wf(),
{
    assert(listed(ledger.merchant, listing).orders =~= ledger.orders);
}

/// To place an order and pay for it at once is to place it and then pay for
/// it: the request is rejected for what would keep the order from being
/// placed or, failing that, its payment from being accepted, and where it
/// succeeds it leaves the ledger that the two requests would leave.
pub proof fn lemma_take_order_is_create_then_pay(
    ledger: ShopView,
    caller: AccountId,
    items: Seq<FoodItem>,
    transferred: nat,
    transfer: TransferOutcome,
)
    ensures
        ledger.order_and_payment_error(caller, items, transferred) == match ledger.creation_error(
            caller,
            items,
        ) {
            Some(e) => Some(e),
            None => ledger.after_create(caller, items).payment_error(
                ledger.orders.len(),
                caller,
                transferred,
            ),
        },
        ledger.take_order_result(caller, items, transferred, transfer) is Ok ==> {
            &&& ledger.creation_error(caller, items) is None
            &&& ledger.after_create(caller, items).pay_result(
                ledger.orders.len(),
                caller,
                transferred,
                transfer,
            ) is Ok
            &&& ledger.after_take_order_and_payment(caller, items, transferred, transfer)
                == ledger.after_create(caller, items).after_pay(
                ledger.orders.len(),
                caller,
                transferred,
                transfer,
            )
        },
{
    if ledger.take_order_result(caller, items, transferred, transfer) is Ok {
        let placed = ledger.after_create(caller, items);
        let id = ledger.orders.len();
        assert(placed.orders[id as int] == OrderView::fresh(id, caller, items));
        assert(ledger.after_take_order_and_payment(caller, items, transferred, transfer).orders
            =~= placed.after_pay(id, caller, transferred, transfer).orders);
    }
}

} // verus!
