//! The page navigator: which page is live, and how events move between pages.
use vstd::prelude::*;

use crate::event::{
    Command, Field, Message, MessageMain, MessageSale, MessageSetting, MessageStock,
};
use crate::sale::{fresh_sale, sale_command, Sale, SaleView};
use crate::setting::Setting;

verus! {

/// The page on screen. Only the sale page carries data: its session.
#[derive(PartialEq, Eq, Debug)]
pub enum Pages {
    Main,
    Sale(Sale),
    Stock,
    Setting,
}

/// The mathematical value of [`Pages`].
pub ghost enum PageView {
    Main,
    Sale(SaleView),
    Stock,
    Setting,
}

impl View for Pages {
    type V = PageView;

    open spec fn view(&self) -> PageView {
        match self {
            Pages::Main => PageView::Main,
            Pages::Sale(sale) => PageView::Sale(sale@),
            Pages::Stock => PageView::Stock,
            Pages::Setting => PageView::Setting,
        }
    }
}

impl Default for Pages {
    fn default() -> (r: Pages)
        ensures
            r@ == PageView::Main,
    {
        Pages::Main
    }
}

/// The whole application state: the live page and the settings.
#[derive(PartialEq, Eq, Debug)]
pub struct State {
    pub pages: Pages,
    pub setting: Setting,
}

/// The mathematical value of a [`State`].
pub ghost struct StateView {
    pub page: PageView,
    pub database_url: Seq<char>,
}

impl View for State {
    type V = StateView;

    open spec fn view(&self) -> StateView {
        StateView { page: self.pages@, database_url: self.setting.database_url@ }
    }
}

impl StateView {
    /// The state's invariant: a live sale session keeps its own invariant.
    pub open spec fn wf(self) -> bool {
        match self.page {
            PageView::Sale(sale) => sale.wf(),
            _ => true,
        }
    }

    /// The state after `message`. An event that the live page does not
    /// handle changes nothing.
    pub open spec fn step(self, message: Message) -> StateView {
        match (self.page, message) {
            (PageView::Main, Message::Main(m)) => match m {
                MessageMain::Sale => StateView { page: PageView::Sale(fresh_sale()), ..self },
                MessageMain::Stock => StateView { page: PageView::Stock, ..self },
                MessageMain::Setting => StateView { page: PageView::Setting, ..self },
            },
            (PageView::Sale(sale), Message::Sale(m)) => match m {
                MessageSale::Back => StateView { page: PageView::Main, ..self },
                _ => StateView { page: PageView::Sale(sale.apply(m)), ..self },
            },
            (PageView::Stock, Message::Stock(MessageStock::Back)) => StateView {
                page: PageView::Main,
                ..self
            },
            (PageView::Setting, Message::Setting(m)) => match m {
                MessageSetting::DatabaseChanged(text) => StateView { database_url: text@, ..self },
                MessageSetting::Back => StateView { page: PageView::Main, ..self },
                _ => self,
            },
            _ => self,
        }
    }

    /// The work that `message` leaves for the runner.
    pub open spec fn command(self, message: Message) -> Command {
        match (self.page, message) {
            (PageView::Main, Message::Main(MessageMain::Sale)) => Command::Focus(Field::Barcode),
            (PageView::Sale(_), Message::Sale(m)) => sale_command(m),
            (PageView::Setting, Message::Setting(MessageSetting::DatabaseSubmit)) => {
                Command::SaveSetting
            },
            _ => Command::Nothing,
        }
    }
}

impl State {
    /// The state at start-up, on the main page with the given settings.
    pub fn new(setting: Setting) -> (r: State)
        ensures
            r.pages@ == PageView::Main,
            r.setting == setting,
    {
        State { pages: Pages::Main, setting }
    }

    /// Handles one event: moves to the next state and says what the runner
    /// should do next. An event that the live page does not handle is
    /// ignored.
    pub fn update(&mut self, message: Message) -> (cmd: Command)
        ensures
            final(self)@ == old(self)@.step(message),
            cmd == old(self)@.command(message),
    {
        match message {
            Message::Main(m) => {
                if let Pages::Main = self.pages {
                    match m {
                        MessageMain::Sale => {
                            self.pages = Pages::Sale(Sale::new());
                            Command::Focus(Field::Barcode)
                        },
                        MessageMain::Stock => {
                            self.pages = Pages::Stock;
                            Command::Nothing
                        },
                        MessageMain::Setting => {
                            self.pages = Pages::Setting;
                            Command::Nothing
                        },
                    }
                } else {
                    Command::Nothing
                }
            },
            Message::Sale(m) => {
                if let MessageSale::Back = m {
                    if let Pages::Sale(_) = self.pages {
                        self.pages = Pages::Main;
                    }
                    Command::Nothing
                } else {
                    match &mut self.pages {
                        Pages::Sale(sale) => sale.apply(m),
                        _ => Command::Nothing,
                    }
                }
            },
            Message::Stock(MessageStock::Back) => {
                if let Pages::Stock = self.pages {
                    self.pages = Pages::Main;
                }
                Command::Nothing
            },
            Message::Setting(m) => {
                if let Pages::Setting = self.pages {
                    match m {
                        MessageSetting::DatabaseChanged(text) => {
                            self.setting.database_url = text;
                            Command::Nothing
                        },
                        MessageSetting::ToDatabaseSubmitButton => Command::Nothing,
                        MessageSetting::DatabaseSubmit => Command::SaveSetting,
                        MessageSetting::Back => {
                            self.pages = Pages::Main;
                            Command::Nothing
                        },
                    }
                } else {
                    Command::Nothing
                }
            },
        }
    }
}

impl Default for State {
    fn default() -> (r: State)
        ensures
            r.pages@ == PageView::Main,
            r.setting.database_url@ == Seq::<char>::empty(),
    {
        State::new(Setting::new())
    }
}

} // verus!
