//! Properties of the sale session and the navigator over all states.
use vstd::prelude::*;

use crate::event::{Command, Message, MessageMain, MessageSale};
use crate::item::ItemView;
use crate::keys::{binding, mode_of, Key};
use crate::sale::{fresh_sale, items_total, SaleView};
use crate::state::{PageView, StateView};

verus! {

/// Appending a line adds its total to the sum of the lines.
proof fn lemma_items_total_push(items: Seq<ItemView>, line: ItemView)
    ensures
        items_total(items.push(line)) == items_total(items) + line.sum,
{
    assert(items.push(line).drop_last() =~= items);
}

/// Every event on the sale page keeps the session's invariant: each line in
/// the cart was validly committed, and the total is the sum of the lines.
pub proof fn lemma_apply_preserves_wf(sale: SaleView, message: MessageSale)
    requires
        sale.wf(),
    ensures
        sale.apply(message).wf(),
{
    if let MessageSale::BarcodeSubmit = message {
        if sale.commit_accepted() {
            lemma_items_total_push(sale.items, sale.committed_line());
        }
    }
    if let MessageSale::Pay = message {
        assert(items_total(fresh_sale().items) == 0);
    }
}

/// Every event keeps the state's invariant.
pub proof fn lemma_step_preserves_wf(s: StateView, message: Message)
    requires
        s.wf(),
    ensures
        s.step(message).wf(),
{
    if let Message::Sale(m) = message {
        if let PageView::Sale(sale) = s.page {
            lemma_apply_preserves_wf(sale, m);
        }
    }
    assert(items_total(fresh_sale().items) == 0);
}

/// Going from the main page to the sale page always opens an empty session,
/// not paying, whatever session was open before the operator went back to
/// the main page.
pub proof fn lemma_go_to_sale_starts_fresh(s: StateView)
    requires
        s.page is Main || s.page is Sale,
    ensures
        ({
            let main = if s.page is Main {
                s
            } else {
                s.step(Message::Sale(MessageSale::Back))
            };
            let next = main.step(Message::Main(MessageMain::Sale));
            &&& main.page is Main
            &&& next.page == PageView::Sale(fresh_sale())
            &&& fresh_sale().items.len() == 0
            &&& fresh_sale().total == 0
            &&& !fresh_sale().paying
        }),
{
}

/// Setting the barcode field to the same text twice is the same as setting
/// it once, and neither time leaves any work for the runner.
pub proof fn lemma_update_barcode_idempotent(s: StateView, text: String)
    ensures
        ({
            let m = Message::Sale(MessageSale::BarcodeChanged(text));
            &&& s.step(m).step(m) == s.step(m)
            &&& s.command(m) == Command::Nothing
            &&& s.step(m).command(m) == Command::Nothing
        }),
{
    let m = Message::Sale(MessageSale::BarcodeChanged(text));
    if let PageView::Sale(sale) = s.page {
        assert(sale.with_barcode(text@).with_barcode(text@) == sale.with_barcode(text@));
    }
}

/// From every page but the main one, escape leads back to the main page.
pub proof fn lemma_escape_goes_back(s: StateView)
    requires
        !(s.page is Main),
    ensures
        binding(mode_of(s), Key::Escape) is Some,
        s.step(binding(mode_of(s), Key::Escape)->0).page is Main,
{
}

} // verus!
