//! An order-and-payment ledger for a single-merchant burger shop.
//!
//! Customers place orders for priced menu items and pay the exact total; the
//! merchant then moves each paid order through delivery and marks it
//! completed. Callers' identities, the amounts they tender and the outcome of
//! each fund transfer are handed in as plain values, so every rule of the
//! ledger is checked without reference to a host.

pub mod account;
pub mod error;
pub mod laws;
pub mod ledger;
pub mod menu;
pub mod order;
pub mod shop;
pub mod transfer;

pub use account::AccountId;
pub use error::BurgerShopError;
pub use ledger::{Operation, ShopView};
pub use menu::{Balance, BurgerMenu, FoodItem};
pub use order::{Order, OrderView, Status};
pub use shop::BurgerShop;
pub use transfer::{Transfer, TransferOutcome};
