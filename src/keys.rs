//! Keyboard bindings: which event a released key stands for on each page.
use vstd::prelude::*;

use crate::event::{Message, MessageSale, MessageSetting, MessageStock};
use crate::state::{PageView, Pages, State, StateView};

verus! {

/// A released key, as far as the bindings tell keys apart.
#[derive(Clone, Copy, PartialEq, Eq, Structural, Debug)]
pub enum Key {
    Escape,
    F12,
    Other,
}

/// The set of bindings in force: one per page, and two on the sale page,
/// whose payment key starts payment while items are entered and cancels it
/// while paying.
#[derive(Clone, Copy, PartialEq, Eq, Structural, Debug)]
pub enum KeyMode {
    Main,
    Browsing,
    Paying,
    Stock,
    Setting,
}

/// The bindings in force in state `s`.
pub open spec fn mode_of(s: StateView) -> KeyMode {
    match s.page {
        PageView::Main => KeyMode::Main,
        PageView::Sale(sale) => if sale.paying {
            KeyMode::Paying
        } else {
            KeyMode::Browsing
        },
        PageView::Stock => KeyMode::Stock,
        PageView::Setting => KeyMode::Setting,
    }
}

/// The event that `key` stands for under `mode`: escape goes back from every
/// page but the main one, and F12 starts or cancels payment on the sale page.
pub open spec fn binding(mode: KeyMode, key: Key) -> Option<Message> {
    match (mode, key) {
        (KeyMode::Browsing, Key::Escape) => Some(Message::Sale(MessageSale::Back)),
        (KeyMode::Browsing, Key::F12) => Some(Message::Sale(MessageSale::EnterPay)),
        (KeyMode::Paying, Key::Escape) => Some(Message::Sale(MessageSale::Back)),
        (KeyMode::Paying, Key::F12) => Some(Message::Sale(MessageSale::ExitPay)),
        (KeyMode::Stock, Key::Escape) => Some(Message::Stock(MessageStock::Back)),
        (KeyMode::Setting, Key::Escape) => Some(Message::Setting(MessageSetting::Back)),
        _ => None,
    }
}

impl State {
    /// The bindings in force in this state.
    pub fn key_mode(&self) -> (r: KeyMode)
        ensures
            r == mode_of(self@),
    {
        match &self.pages {
            Pages::Main => KeyMode::Main,
            Pages::Sale(sale) => if sale.paying {
                KeyMode::Paying
            } else {
                KeyMode::Browsing
            },
            Pages::Stock => KeyMode::Stock,
            Pages::Setting => KeyMode::Setting,
        }
    }
}

/// The event that `key` stands for under `mode`, if any.
pub fn key_binding(mode: KeyMode, key: Key) -> (r: Option<Message>)
    ensures
        r == binding(mode, key),
{
    match (mode, key) {
        (KeyMode::Browsing, Key::Escape) => Some(Message::Sale(MessageSale::Back)),
        (KeyMode::Browsing, Key::F12) => Some(Message::Sale(MessageSale::EnterPay)),
        (KeyMode::Paying, Key::Escape) => Some(Message::Sale(MessageSale::Back)),
        (KeyMode::Paying, Key::F12) => Some(Message::Sale(MessageSale::ExitPay)),
        (KeyMode::Stock, Key::Escape) => Some(Message::Stock(MessageStock::Back)),
        (KeyMode::Setting, Key::Escape) => Some(Message::Setting(MessageSetting::Back)),
        _ => None,
    }
}

} // verus!
