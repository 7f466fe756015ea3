//! The sale session: the cart being built, the item being entered, and payment.
use vstd::prelude::*;

use crate::decimal::{parse_u32, parsed_u32};
use crate::event::{Command, Field, MessageSale};
use crate::item::{blank_item, item_name, Item, ItemView};

verus! {

/// The highest price that a barcode may stand for.
pub const MAX_PRICE: u32 = 1000;

/// The in-progress transaction of one customer.
#[derive(PartialEq, Eq, Debug)]
pub struct Sale {
    pub paying: bool,
    pub item: Item,
    pub items: Vec<Item>,
    pub received: String,
    pub change: i64,
    pub total: u32,
}

/// The mathematical value of a [`Sale`].
pub ghost struct SaleView {
    pub paying: bool,
    pub item: ItemView,
    pub items: Seq<ItemView>,
    pub received: Seq<char>,
    pub change: int,
    pub total: nat,
}

impl View for Sale {
    type V = SaleView;

    open spec fn view(&self) -> SaleView {
        SaleView {
            paying: self.paying,
            item: self.item@,
            items: self.items@.map_values(|i: Item| i@),
            received: self.received@,
            change: self.change as int,
            total: self.total as nat,
        }
    }
}

/// The session that a new customer starts with: an empty cart, a blank item,
/// nothing received and nothing owed.
pub open spec fn fresh_sale() -> SaleView {
    SaleView {
        paying: false,
        item: blank_item(),
        items: Seq::empty(),
        received: Seq::empty(),
        change: 0,
        total: 0,
    }
}

/// The sum of the line totals of `items`.
pub open spec fn items_total(items: Seq<ItemView>) -> nat
    decreases items.len(),
{
    if items.len() == 0 {
        0
    } else {
        items_total(items.drop_last()) + items.last().sum
    }
}

/// Whether `item` is a line that a commit could have produced: its price is
/// in range, its quantity reads as a positive number, and its total is the
/// quantity times the price.
pub open spec fn is_committed_line(item: ItemView) -> bool {
    &&& 0 < item.price <= MAX_PRICE
    &&& parsed_u32(item.amount) is Some
    &&& parsed_u32(item.amount)->0 > 0
    &&& item.sum == parsed_u32(item.amount)->0 * item.price
}

impl SaleView {
    /// The session's invariant: every line was committed, and the total is
    /// the sum of the lines.
    pub open spec fn wf(self) -> bool {
        &&& self.total == items_total(self.items)
        &&& forall|i: int| 0 <= i < self.items.len() ==> is_committed_line(#[trigger] self.items[i])
    }

    /// The session with the item's barcode field set to `text`.
    pub open spec fn with_barcode(self, text: Seq<char>) -> SaleView {
        SaleView { item: ItemView { barcode: text, ..self.item }, ..self }
    }

    /// The session with the item's quantity field set to `text`.
    pub open spec fn with_amount(self, text: Seq<char>) -> SaleView {
        SaleView { item: ItemView { amount: text, ..self.item }, ..self }
    }

    /// Whether the item being entered may go into the cart: its barcode reads
    /// as a price from 1 to [`MAX_PRICE`], its quantity as a positive number,
    /// and the new total still fits in 32 bits.
    pub open spec fn commit_accepted(self) -> bool {
        let price = parsed_u32(self.item.barcode);
        let amount = parsed_u32(self.item.amount);
        &&& price is Some
        &&& amount is Some
        &&& 0 < price->0 <= MAX_PRICE
        &&& amount->0 > 0
        &&& self.total + amount->0 * price->0 <= u32::MAX
    }

    /// The line that a commit appends to the cart.
    pub open spec fn committed_line(self) -> ItemView {
        let p = parsed_u32(self.item.barcode)->0 as nat;
        let a = parsed_u32(self.item.amount)->0 as nat;
        ItemView { name: item_name(p), price: p, sum: a * p, ..self.item }
    }

    /// The session after a commit: an accepted item is appended to the cart
    /// and added to the total, and the barcode and quantity fields start over;
    /// anything else leaves the session as it was.
    pub open spec fn commit(self) -> SaleView {
        if self.commit_accepted() {
            let line = self.committed_line();
            SaleView {
                item: ItemView { barcode: Seq::empty(), amount: "1"@, ..line },
                items: self.items.push(line),
                total: self.total + line.sum,
                ..self
            }
        } else {
            self
        }
    }

    /// The session once payment has begun.
    pub open spec fn enter_payment(self) -> SaleView {
        SaleView { paying: true, ..self }
    }

    /// The session with `text` as the amount received; when it reads as a
    /// number, the change is that number less the total.
    pub open spec fn receive(self, text: Seq<char>) -> SaleView {
        match parsed_u32(text) {
            Some(v) => SaleView { received: text, change: v - self.total, ..self },
            None => SaleView { received: text, ..self },
        }
    }

    /// The session once payment is cancelled: nothing received, the whole
    /// total owed.
    pub open spec fn exit_payment(self) -> SaleView {
        SaleView { paying: false, received: "0"@, change: -self.total, ..self }
    }

    /// The session after `message`. Leaving the page is the navigator's
    /// concern, so here it changes nothing.
    pub open spec fn apply(self, message: MessageSale) -> SaleView {
        match message {
            MessageSale::BarcodeChanged(text) => self.with_barcode(text@),
            MessageSale::AmountChanged(text) => self.with_amount(text@),
            MessageSale::BarcodeSubmit => self.commit(),
            MessageSale::AmountSubmit => self,
            MessageSale::EnterPay => self.enter_payment(),
            MessageSale::ExitPay => self.exit_payment(),
            MessageSale::Receive(text) => self.receive(text@),
            MessageSale::Pay => fresh_sale(),
            MessageSale::Back => self,
        }
    }
}

/// The work that `message` leaves for the runner on the sale page.
pub open spec fn sale_command(message: MessageSale) -> Command {
    match message {
        MessageSale::EnterPay => Command::Focus(Field::Received),
        MessageSale::ExitPay => Command::Focus(Field::Barcode),
        MessageSale::Pay => Command::Focus(Field::Barcode),
        _ => Command::Nothing,
    }
}

impl Sale {
    /// A session for a new customer.
    pub fn new() -> (r: Sale)
        ensures
            r@ == fresh_sale(),
    {
        let r = Sale {
            paying: false,
            item: Item::new(),
            items: Vec::new(),
            received: String::new(),
            change: 0,
            total: 0,
        };
        assert(r@.items =~= Seq::<ItemView>::empty());
        r
    }

    /// Sets the barcode field of the item being entered.
    pub fn update_barcode(&mut self, text: String)
        ensures
            final(self)@ == old(self)@.with_barcode(text@),
    {
        self.item.barcode = text;
    }

    /// Sets the quantity field of the item being entered.
    pub fn update_amount(&mut self, text: String)
        ensures
            final(self)@ == old(self)@.with_amount(text@),
    {
        self.item.amount = text;
    }

    /// Moves the item being entered into the cart when it is valid, and
    /// otherwise leaves the session untouched.
    pub fn commit_item(&mut self)
        ensures
            final(self)@ == old(self)@.commit(),
    {
        let price = parse_u32(self.item.barcode.as_str());
        let amount = parse_u32(self.item.amount.as_str());
        if let (Some(p), Some(a)) = (price, amount) {
            if 0 < p && p <= MAX_PRICE && a > 0 {
                if let Some(sum) = a.checked_mul(p) {
                    if let Some(total) = self.total.checked_add(sum) {
                        let ghost before = self@;
                        self.item.name = Item::name_for_price(p);
                        self.item.price = p;
                        self.item.sum = sum;
                        let line = self.item.snapshot();
                        assert(line@ == before.committed_line());
                        self.items.push(line);
                        self.total = total;
                        self.item.barcode = String::new();
                        self.item.amount = String::from_str("1");
                        assert(self@.items =~= before.items.push(before.committed_line()));
                    }
                }
            }
        }
    }

    /// Starts taking payment.
    pub fn enter_payment(&mut self)
        ensures
            final(self)@ == old(self)@.enter_payment(),
    {
        self.paying = true;
    }

    /// Records the amount received and, when it reads as a number, the change.
    pub fn receive(&mut self, text: String)
        ensures
            final(self)@ == old(self)@.receive(text@),
    {
        self.received = text;
        if let Some(v) = parse_u32(self.received.as_str()) {
            self.change = v as i64 - self.total as i64;
        }
    }

    /// Cancels payment and returns to entering items.
    pub fn exit_payment(&mut self)
        ensures
            final(self)@ == old(self)@.exit_payment(),
    {
        self.paying = false;
        self.received = String::from_str("0");
        self.change = -(self.total as i64);
    }

    /// Handles an event of the sale page and says what the runner should do
    /// next.
    pub fn apply(&mut self, message: MessageSale) -> (cmd: Command)
        ensures
            final(self)@ == old(self)@.apply(message),
            cmd == sale_command(message),
    {
        match message {
            MessageSale::BarcodeChanged(text) => {
                self.update_barcode(text);
                Command::Nothing
            },
            MessageSale::AmountChanged(text) => {
                self.update_amount(text);
                Command::Nothing
            },
            MessageSale::BarcodeSubmit => {
                self.commit_item();
                Command::Nothing
            },
            MessageSale::AmountSubmit => Command::Nothing,
            MessageSale::EnterPay => {
                self.enter_payment();
                Command::Focus(Field::Received)
            },
            MessageSale::ExitPay => {
                self.exit_payment();
                Command::Focus(Field::Barcode)
            },
            MessageSale::Receive(text) => {
                self.receive(text);
                Command::Nothing
            },
            MessageSale::Pay => {
                *self = Sale::new();
                Command::Focus(Field::Barcode)
            },
            MessageSale::Back => Command::Nothing,
        }
    }
}

impl Default for Sale {
    fn default() -> (r: Sale)
        ensures
            r@ == fresh_sale(),
    {
        Sale::new()
    }
}

} // verus!
