use burger_shop::{AccountId, BurgerShop};

fn shop_owner() -> AccountId {
    AccountId { bytes: [7u8; 32] }
}

#[test]
fn first_test() {
    assert!(2 == 2);
}

#[test]
fn first_integration_test_works() {
    let shop = BurgerShop::new(shop_owner());
    assert_eq!(None, shop.get_orders());
}

#[test]
fn new_shop_remembers_its_merchant_and_is_empty() {
    let shop = BurgerShop::new(shop_owner());
    assert_eq!(shop.merchant(), shop_owner());
    assert_eq!(shop.order_count(), 0);
    assert!(shop.list_orders().is_empty());
}

#[test]
fn accounts_are_equal_when_all_bytes_are() {
    let a = AccountId { bytes: [1u8; 32] };
    let b = AccountId { bytes: [1u8; 32] };
    assert!(a == b);
    assert_eq!(a, b);
}

#[test]
fn accounts_differ_when_the_first_byte_does() {
    let a = AccountId { bytes: [1u8; 32] };
    let mut bytes = [1u8; 32];
    bytes[0] = 2;
    let b = AccountId { bytes };
    assert!(a != b);
}

#[test]
fn accounts_differ_when_the_last_byte_does() {
    let a = AccountId { bytes: [1u8; 32] };
    let mut bytes = [1u8; 32];
    bytes[31] = 0;
    let b = AccountId { bytes };
    assert!(a != b);
    assert!(b != a);
}
