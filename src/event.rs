//! What the operator does, and what the terminal asks its surroundings to do.
use vstd::prelude::*;

verus! {

/// An event, addressed to the page that should handle it.
#[derive(Clone, Debug)]
pub enum Message {
    Main(MessageMain),
    Sale(MessageSale),
    Stock(MessageStock),
    Setting(MessageSetting),
}

/// Events of the main menu.
#[derive(Clone, Debug)]
pub enum MessageMain {
    Sale,
    Stock,
    Setting,
}

/// Events of the sale page.
#[derive(Clone, Debug)]
pub enum MessageSale {
    BarcodeChanged(String),
    BarcodeSubmit,
    AmountChanged(String),
    AmountSubmit,
    EnterPay,
    ExitPay,
    Receive(String),
    Pay,
    Back,
}

/// Events of the stock page.
#[derive(Clone, Debug)]
pub enum MessageStock {
    Back,
}

/// Events of the setting page.
#[derive(Clone, Debug)]
pub enum MessageSetting {
    DatabaseChanged(String),
    ToDatabaseSubmitButton,
    DatabaseSubmit,
    Back,
}

/// An input field that can take the keyboard focus.
#[derive(Clone, Copy, PartialEq, Eq, Structural, Debug)]
pub enum Field {
    Barcode,
    Received,
}

/// Work that a transition leaves to the runner once the new state is in place.
#[derive(Clone, Copy, PartialEq, Eq, Structural, Debug)]
pub enum Command {
    /// Nothing to do.
    Nothing,
    /// Move the keyboard focus to a field.
    Focus(Field),
    /// Write the current settings to the settings store.
    SaveSetting,
}

} // verus!
