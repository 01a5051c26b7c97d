use burger_shop::{
    AccountId, BurgerMenu, BurgerShop, BurgerShopError, FoodItem, Order, Status, TransferOutcome,
};

fn keeper() -> AccountId {
    AccountId { bytes: [9u8; 32] }
}

fn guest() -> AccountId {
    AccountId { bytes: [2u8; 32] }
}

fn veggie(amount: u32) -> FoodItem {
    FoodItem { burger_menu: BurgerMenu::VeggieBurger, amount }
}

fn busy_shop() -> BurgerShop {
    let mut shop = BurgerShop::new(keeper());
    shop.create_order(guest(), vec![veggie(1)]).unwrap();
    shop.create_order(guest(), vec![veggie(2)]).unwrap();
    shop.create_order(guest(), vec![veggie(3)]).unwrap();
    shop.pay(0, guest(), 10, TransferOutcome::Succeeded).unwrap();
    shop.pay(1, guest(), 20, TransferOutcome::Succeeded).unwrap();
    shop.change_status(0, Status::Delivered, keeper()).unwrap();
    shop.mark_completed(0, keeper()).unwrap();
    shop
}

fn one_order(change: fn(&mut Order)) -> Vec<(u32, Order)> {
    let mut order = Order::new(vec![veggie(2)], guest(), 0);
    change(&mut order);
    vec![(0, order)]
}

#[test]
fn a_listing_restores_the_shop_it_came_from() {
    let shop = busy_shop();
    let restored = BurgerShop::from_orders(keeper(), shop.list_orders()).unwrap();
    assert_eq!(restored.merchant(), keeper());
    assert_eq!(restored.list_orders(), shop.list_orders());
}

#[test]
fn a_restored_shop_goes_on_where_the_other_stopped() {
    let mut restored = BurgerShop::from_orders(keeper(), busy_shop().list_orders()).unwrap();
    assert_eq!(restored.create_order(guest(), vec![veggie(4)]), Ok(3));
    assert_eq!(
        restored.pay(1, guest(), 20, TransferOutcome::Succeeded),
        Err(BurgerShopError::AlreadyPaid)
    );
    assert_eq!(restored.pay(2, guest(), 30, TransferOutcome::Succeeded), Ok(()));
    assert_eq!(restored.mark_completed(0, keeper()), Err(BurgerShopError::AlreadyCompleted));
}

#[test]
fn an_empty_listing_restores_an_empty_shop() {
    let restored = BurgerShop::from_orders(keeper(), Vec::new()).unwrap();
    assert_eq!(restored.order_count(), 0);
    assert_eq!(restored.get_orders(), None);
}

#[test]
fn a_fresh_order_under_id_zero_is_a_listing() {
    assert!(BurgerShop::from_orders(keeper(), one_order(|_| {})).is_some());
}

#[test]
fn a_listing_must_count_its_ids_from_zero() {
    let mut listing = busy_shop().list_orders();
    listing.remove(0);
    assert!(BurgerShop::from_orders(keeper(), listing).is_none());
}

#[test]
fn a_listing_must_give_each_order_under_its_own_id() {
    let mut listing = one_order(|_| {});
    listing[0].0 = 1;
    assert!(BurgerShop::from_orders(keeper(), listing).is_none());
    assert!(BurgerShop::from_orders(keeper(), one_order(|order| order.order_id = 1)).is_none());
}

#[test]
fn a_listing_must_price_its_orders_right() {
    assert!(BurgerShop::from_orders(keeper(), one_order(|order| order.total_price = 21)).is_none());
}

#[test]
fn a_listing_must_not_hold_a_completed_order_that_is_unpaid() {
    assert!(BurgerShop::from_orders(keeper(), one_order(|order| order.completed = true)).is_none());
}

#[test]
fn a_listing_must_not_hold_a_completed_order_that_is_undelivered() {
    let listing = one_order(|order| {
        order.paid = true;
        order.status = Status::SentForDelivery;
        order.completed = true;
    });
    assert!(BurgerShop::from_orders(keeper(), listing).is_none());
}

#[test]
fn a_listing_must_not_hold_an_unpaid_order_that_has_left_the_start() {
    assert!(BurgerShop::from_orders(
        keeper(),
        one_order(|order| order.status = Status::Preparing)
    )
    .is_none());
}

#[test]
fn a_listing_may_hold_a_paid_order_in_any_status() {
    assert!(BurgerShop::from_orders(keeper(), one_order(|order| order.paid = true)).is_some());
    let delivered = one_order(|order| {
        order.paid = true;
        order.status = Status::Delivered;
        order.completed = true;
    });
    assert!(BurgerShop::from_orders(keeper(), delivered).is_some());
}

#[test]
fn a_listing_must_not_hold_an_order_without_lines() {
    let listing = one_order(|order| {
        order.list_of_items = Vec::new();
        order.total_price = 0;
    });
    assert!(BurgerShop::from_orders(keeper(), listing).is_none());
}

#[test]
fn a_listing_must_not_hold_a_line_of_amount_zero() {
    let listing = one_order(|order| order.list_of_items.push(veggie(0)));
    assert!(BurgerShop::from_orders(keeper(), listing).is_none());
}

#[test]
fn a_listing_must_not_hold_an_order_of_the_merchant() {
    assert!(BurgerShop::from_orders(guest(), one_order(|_| {})).is_none());
}
