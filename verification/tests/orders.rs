use burger_shop::{AccountId, BurgerMenu, BurgerShop, BurgerShopError, FoodItem, Status};

fn merchant() -> AccountId {
    AccountId { bytes: [9u8; 32] }
}

fn alice() -> AccountId {
    AccountId { bytes: [1u8; 32] }
}

fn bob() -> AccountId {
    AccountId { bytes: [2u8; 32] }
}

fn chicken(amount: u32) -> FoodItem {
    FoodItem { burger_menu: BurgerMenu::ChickenBurger, amount }
}

fn cheese(amount: u32) -> FoodItem {
    FoodItem { burger_menu: BurgerMenu::CheeseBurger, amount }
}

#[test]
fn create_order_stores_a_pending_order() {
    let mut shop = BurgerShop::new(merchant());
    let id = shop.create_order(bob(), vec![chicken(2)]).unwrap();
    assert_eq!(id, 0);
    let order = shop.get_order(0).unwrap();
    assert_eq!(order.order_id, 0);
    assert_eq!(order.customer, bob());
    assert_eq!(order.list_of_items, vec![chicken(2)]);
    assert_eq!(order.total_price, 300);
    assert!(!order.paid);
    assert!(!order.completed);
    assert_eq!(order.status, Status::GettingIngredients);
}

#[test]
fn create_order_hands_out_ids_in_sequence() {
    let mut shop = BurgerShop::new(merchant());
    assert_eq!(shop.create_order(alice(), vec![cheese(1)]), Ok(0));
    assert_eq!(shop.create_order(bob(), vec![chicken(1)]), Ok(1));
    assert_eq!(shop.create_order(alice(), vec![chicken(3), cheese(2)]), Ok(2));
    assert_eq!(shop.order_count(), 3);
    assert_eq!(shop.get_order(2).unwrap().total_price, 474);
}

#[test]
fn create_order_leaves_earlier_orders_alone() {
    let mut shop = BurgerShop::new(merchant());
    shop.create_order(alice(), vec![cheese(1)]).unwrap();
    let before = shop.get_order(0).unwrap();
    shop.create_order(bob(), vec![chicken(1)]).unwrap();
    assert_eq!(shop.get_order(0).unwrap(), before);
}

#[test]
fn create_order_rejects_an_empty_list() {
    let mut shop = BurgerShop::new(merchant());
    assert_eq!(shop.create_order(bob(), Vec::new()), Err(BurgerShopError::EmptyOrder));
    assert_eq!(shop.order_count(), 0);
    assert_eq!(shop.get_orders(), None);
}

#[test]
fn create_order_rejects_an_empty_list_and_keeps_the_ledger() {
    let mut shop = BurgerShop::new(merchant());
    shop.create_order(alice(), vec![cheese(1)]).unwrap();
    let before = shop.list_orders();
    assert_eq!(shop.create_order(bob(), Vec::new()), Err(BurgerShopError::EmptyOrder));
    assert_eq!(shop.order_count(), 1);
    assert_eq!(shop.list_orders(), before);
}

#[test]
fn create_order_rejects_a_line_of_amount_zero() {
    let mut shop = BurgerShop::new(merchant());
    assert_eq!(
        shop.create_order(bob(), vec![chicken(2), cheese(0)]),
        Err(BurgerShopError::EmptyOrder)
    );
    assert_eq!(shop.create_order(bob(), vec![cheese(0)]), Err(BurgerShopError::EmptyOrder));
    assert_eq!(shop.order_count(), 0);
}

#[test]
fn create_order_rejects_the_merchant() {
    let mut shop = BurgerShop::new(merchant());
    assert_eq!(
        shop.create_order(merchant(), vec![chicken(2)]),
        Err(BurgerShopError::UnauthorizedCreator)
    );
    assert_eq!(shop.order_count(), 0);
}

#[test]
fn create_order_calls_an_empty_order_of_the_merchant_empty() {
    let mut shop = BurgerShop::new(merchant());
    assert_eq!(shop.create_order(merchant(), Vec::new()), Err(BurgerShopError::EmptyOrder));
    assert_eq!(shop.create_order(merchant(), vec![cheese(0)]), Err(BurgerShopError::EmptyOrder));
}

#[test]
fn get_order_fails_for_an_unknown_id() {
    let mut shop = BurgerShop::new(merchant());
    assert_eq!(shop.get_order(0), Err(BurgerShopError::OrderNotFound));
    shop.create_order(bob(), vec![chicken(1)]).unwrap();
    assert!(shop.get_order(0).is_ok());
    assert_eq!(shop.get_order(1), Err(BurgerShopError::OrderNotFound));
    assert_eq!(shop.get_order(u32::MAX), Err(BurgerShopError::OrderNotFound));
}

#[test]
fn get_single_order_returns_the_order_of_that_id() {
    let mut shop = BurgerShop::new(merchant());
    shop.create_order(alice(), vec![cheese(2)]).unwrap();
    shop.create_order(bob(), vec![chicken(1)]).unwrap();
    let order = shop.get_single_order(1);
    assert_eq!(order.order_id, 1);
    assert_eq!(order.customer, bob());
    assert_eq!(order.total_price, 150);
    assert_eq!(Ok(order), shop.get_order(1));
}

#[test]
fn list_orders_gives_every_order_in_creation_order() {
    let mut shop = BurgerShop::new(merchant());
    assert_eq!(shop.list_orders(), Vec::new());
    shop.create_order(alice(), vec![cheese(2)]).unwrap();
    shop.create_order(bob(), vec![chicken(1)]).unwrap();
    shop.create_order(alice(), vec![chicken(4)]).unwrap();
    let all = shop.list_orders();
    assert_eq!(all.len(), 3);
    for (position, (id, order)) in all.iter().enumerate() {
        assert_eq!(*id as usize, position);
        assert_eq!(order.order_id, *id);
        assert_eq!(Ok(order.clone()), shop.get_order(*id));
    }
    assert_eq!(all[0].1.customer, alice());
    assert_eq!(all[1].1.customer, bob());
    assert_eq!(all[2].1.total_price, 600);
}

#[test]
fn get_orders_is_none_until_an_order_is_placed() {
    let mut shop = BurgerShop::new(merchant());
    assert_eq!(shop.get_orders(), None);
    shop.create_order(bob(), vec![chicken(1)]).unwrap();
    assert_eq!(shop.get_orders(), Some(shop.list_orders()));
    assert_eq!(shop.get_orders().unwrap().len(), 1);
}
