//! The catalog: the menu, its unit prices, and the price of a list of items.

use vstd::prelude::*;

verus! {

/// Amounts of the native token.
pub type Balance = u128;

/// The burgers on the menu. The set is closed: every variant has a price.
#[derive(Clone, Copy, Debug, PartialEq, Eq, Structural)]
pub enum BurgerMenu {
    CheeseBurger,
    ChickenBurger,
    VeggieBurger,
}

/// One line of an order: a burger and how many of it.
#[derive(Clone, Copy, Debug, PartialEq, Eq, Structural)]
pub struct FoodItem {
    pub burger_menu: BurgerMenu,
    pub amount: u32,
}

/// No burger costs more than this.
pub open spec fn max_unit_price() -> nat {
    150
}

/// No single line costs more than this.
pub open spec fn max_line_price() -> nat {
    max_unit_price() * (u32::MAX as nat)
}

/// The sum, over the lines of `items`, of unit price times amount.
pub open spec fn total_price_of(items: Seq<FoodItem>) -> nat
    decreases items.len(),
{
    if items.len() == 0 {
        0
    } else {
        total_price_of(items.drop_last()) + items.last().spec_price()
    }
}

/// Every amount in `items` is at least one.
pub open spec fn all_amounts_positive(items: Seq<FoodItem>) -> bool {
    forall|i: int| 0 <= i < items.len() ==> (#[trigger] items[i]).amount >= 1
}

impl BurgerMenu {
    /// The unit price of this burger.
    pub open spec fn spec_price(&self) -> nat {
        match *self {
            BurgerMenu::CheeseBurger => 12,
            BurgerMenu::VeggieBurger => 10,
            BurgerMenu::ChickenBurger => 150,
        }
    }

    /// The unit price of this burger.
    pub fn price(&self) -> (unit: Balance)
        ensures
            unit == self.spec_price(),
    {
        match self {
            BurgerMenu::CheeseBurger => 12,
            BurgerMenu::VeggieBurger => 10,
            BurgerMenu::ChickenBurger => 150,
        }
    }
}

impl FoodItem {
    /// The price of this line: unit price times amount.
    pub open spec fn spec_price(&self) -> nat {
        self.burger_menu.spec_price() * (self.amount as nat)
    }

    /// The price of this line: unit price times amount.
    pub fn price(&self) -> (line: Balance)
        ensures
            line == self.spec_price(),
    {
        let unit: Balance = self.burger_menu.price();
        proof {
            lemma_line_price_bounded(*self);
        }
        unit * (self.amount as u128)
    }
}

/// A line never costs more than `max_line_price()`.
pub proof fn lemma_line_price_bounded(item: FoodItem)
    ensures
        item.spec_price() <= max_line_price(),
{
    let unit = item.burger_menu.spec_price() as int;
    let amount = item.amount as int;
    assert(unit * amount <= 150 * 0xffff_ffff) by (nonlinear_arith)
        requires
            0 <= unit <= 150,
            0 <= amount <= 0xffff_ffff,
    ;
}

/// A list of `n` lines never costs more than `n` times `max_line_price()`.
pub proof fn lemma_total_price_bounded(items: Seq<FoodItem>)
    ensures
        total_price_of(items) <= items.len() * max_line_price(),
    decreases items.len(),
{
    if items.len() > 0 {
        lemma_total_price_bounded(items.drop_last());
        lemma_line_price_bounded(items.last());
        assert(items.len() * max_line_price() == (items.len() - 1) * max_line_price()
            + max_line_price()) by (nonlinear_arith);
    }
}

} // verus!
