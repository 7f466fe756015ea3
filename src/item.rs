//! One line of a cart.
use vstd::prelude::*;

use crate::decimal::{decimal_text, u32_text};

verus! {

/// One line of a cart: what was scanned, what it is called, its unit price,
/// the quantity as the operator typed it, and the line's total.
#[derive(Clone, PartialEq, Eq, Debug)]
pub struct Item {
    pub barcode: String,
    pub name: String,
    pub price: u32,
    pub amount: String,
    pub sum: u32,
}

/// The mathematical value of an [`Item`].
pub ghost struct ItemView {
    pub barcode: Seq<char>,
    pub name: Seq<char>,
    pub price: nat,
    pub amount: Seq<char>,
    pub sum: nat,
}

impl View for Item {
    type V = ItemView;

    open spec fn view(&self) -> ItemView {
        ItemView {
            barcode: self.barcode@,
            name: self.name@,
            price: self.price as nat,
            amount: self.amount@,
            sum: self.sum as nat,
        }
    }
}

/// The item being entered when nothing has been typed yet: no barcode, no
/// name, no price, and a quantity of one.
pub open spec fn blank_item() -> ItemView {
    ItemView { barcode: Seq::empty(), name: Seq::empty(), price: 0, amount: "1"@, sum: 0 }
}

/// The display name given to an item priced at `price`.
pub open spec fn item_name(price: nat) -> Seq<char> {
    "สินค้าราคา "@ + decimal_text(price) + " บาท"@
}

impl Item {
    /// The blank item that a new sale starts with.
    pub fn new() -> (r: Item)
        ensures
            r@ == blank_item(),
    {
        Item {
            barcode: String::new(),
            name: String::new(),
            price: 0,
            amount: String::from_str("1"),
            sum: 0,
        }
    }

    /// The display name of an item priced at `price`.
    pub fn name_for_price(price: u32) -> (r: String)
        ensures
            r@ == item_name(price as nat),
    {
        let mut name = String::from_str("สินค้าราคา ");
        let digits = u32_text(price);
        name.append(digits.as_str());
        name.append(" บาท");
        name
    }

    /// An item with the same fields as this one.
    pub fn snapshot(&self) -> (r: Item)
        ensures
            r == *self,
    {
        Item {
            barcode: self.barcode.clone(),
            name: self.name.clone(),
            price: self.price,
            amount: self.amount.clone(),
            sum: self.sum,
        }
    }
}

impl Default for Item {
    fn default() -> (r: Item)
        ensures
            r@ == blank_item(),
    {
        Item::new()
    }
}

} // verus!
