use sunminimart::event::{
    Command, Field, Message, MessageMain, MessageSale, MessageSetting, MessageStock,
};
use sunminimart::keys::{key_binding, Key, KeyMode};
use sunminimart::sale::Sale;
use sunminimart::setting::Setting;
use sunminimart::state::{Pages, State};
use sunminimart::widget::Position;

fn sale_of(state: &State) -> &Sale {
    match &state.pages {
        Pages::Sale(sale) => sale,
        other => panic!("not on the sale page: {:?}", other),
    }
}

#[test]
fn go_to_sale_requests_barcode_focus() {
    let mut state = State::default();
    assert_eq!(
        state.update(Message::Main(MessageMain::Sale)),
        Command::Focus(Field::Barcode)
    );
    assert_eq!(state.pages, Pages::Sale(Sale::new()));
}

#[test]
fn navigation_reset() {
    let mut state = State::default();
    state.update(Message::Main(MessageMain::Sale));
    state.update(Message::Sale(MessageSale::BarcodeChanged("100".to_string())));
    state.update(Message::Sale(MessageSale::BarcodeSubmit));
    state.update(Message::Sale(MessageSale::EnterPay));
    assert_eq!(sale_of(&state).total, 100);
    assert_eq!(state.update(Message::Sale(MessageSale::Back)), Command::Nothing);
    assert_eq!(state.pages, Pages::Main);
    state.update(Message::Main(MessageMain::Sale));
    let sale = sale_of(&state);
    assert!(sale.items.is_empty());
    assert_eq!(sale.total, 0);
    assert!(!sale.paying);
}

#[test]
fn pay_resets_session_in_place() {
    let mut state = State::default();
    state.update(Message::Main(MessageMain::Sale));
    state.update(Message::Sale(MessageSale::BarcodeChanged("9".to_string())));
    state.update(Message::Sale(MessageSale::BarcodeSubmit));
    assert_eq!(
        state.update(Message::Sale(MessageSale::Pay)),
        Command::Focus(Field::Barcode)
    );
    assert_eq!(state.pages, Pages::Sale(Sale::new()));
}

#[test]
fn stock_and_setting_return_to_main() {
    let mut state = State::default();
    state.update(Message::Main(MessageMain::Stock));
    assert_eq!(state.update(Message::Stock(MessageStock::Back)), Command::Nothing);
    assert_eq!(state.pages, Pages::Main);
    state.update(Message::Main(MessageMain::Setting));
    assert_eq!(state.pages, Pages::Setting);
    state.update(Message::Setting(MessageSetting::Back));
    assert_eq!(state.pages, Pages::Main);
}

#[test]
fn mismatched_event_is_ignored() {
    let mut state = State::default();
    assert_eq!(state.update(Message::Sale(MessageSale::BarcodeSubmit)), Command::Nothing);
    assert_eq!(state.update(Message::Stock(MessageStock::Back)), Command::Nothing);
    assert_eq!(
        state.update(Message::Setting(MessageSetting::DatabaseChanged("x".to_string()))),
        Command::Nothing
    );
    assert_eq!(state, State::default());
    state.update(Message::Main(MessageMain::Stock));
    assert_eq!(state.update(Message::Main(MessageMain::Sale)), Command::Nothing);
    assert_eq!(state.pages, Pages::Stock);
}

#[test]
fn setting_edit_and_save() {
    let mut state = State::new(Setting { database_url: "http://a".to_string() });
    state.update(Message::Main(MessageMain::Setting));
    state.update(Message::Setting(MessageSetting::DatabaseChanged("http://b".to_string())));
    assert_eq!(state.setting.database_url, "http://b");
    assert_eq!(
        state.update(Message::Setting(MessageSetting::ToDatabaseSubmitButton)),
        Command::Nothing
    );
    assert_eq!(
        state.update(Message::Setting(MessageSetting::DatabaseSubmit)),
        Command::SaveSetting
    );
    assert_eq!(state.setting.database_url, "http://b");
}

#[test]
fn default_setting_is_empty() {
    assert_eq!(Setting::default().database_url, "");
    assert_eq!(State::default().setting, Setting::new());
    assert_eq!(Pages::default(), Pages::Main);
    assert_eq!(Position::default(), Position::Top);
}

#[test]
fn key_modes_follow_page_and_payment() {
    let mut state = State::default();
    assert_eq!(state.key_mode(), KeyMode::Main);
    state.update(Message::Main(MessageMain::Sale));
    assert_eq!(state.key_mode(), KeyMode::Browsing);
    state.update(Message::Sale(MessageSale::EnterPay));
    assert_eq!(state.key_mode(), KeyMode::Paying);
    state.update(Message::Sale(MessageSale::Back));
    state.update(Message::Main(MessageMain::Stock));
    assert_eq!(state.key_mode(), KeyMode::Stock);
    state.update(Message::Stock(MessageStock::Back));
    state.update(Message::Main(MessageMain::Setting));
    assert_eq!(state.key_mode(), KeyMode::Setting);
}

#[test]
fn key_bindings() {
    assert!(key_binding(KeyMode::Main, Key::Escape).is_none());
    assert!(key_binding(KeyMode::Main, Key::F12).is_none());
    assert!(matches!(
        key_binding(KeyMode::Browsing, Key::Escape),
        Some(Message::Sale(MessageSale::Back))
    ));
    assert!(matches!(
        key_binding(KeyMode::Browsing, Key::F12),
        Some(Message::Sale(MessageSale::EnterPay))
    ));
    assert!(matches!(
        key_binding(KeyMode::Paying, Key::F12),
        Some(Message::Sale(MessageSale::ExitPay))
    ));
    assert!(matches!(
        key_binding(KeyMode::Paying, Key::Escape),
        Some(Message::Sale(MessageSale::Back))
    ));
    assert!(matches!(
        key_binding(KeyMode::Stock, Key::Escape),
        Some(Message::Stock(MessageStock::Back))
    ));
    assert!(matches!(
        key_binding(KeyMode::Setting, Key::Escape),
        Some(Message::Setting(MessageSetting::Back))
    ));
    assert!(key_binding(KeyMode::Stock, Key::F12).is_none());
    assert!(key_binding(KeyMode::Browsing, Key::Other).is_none());
}

#[test]
fn f12_toggles_payment() {
    let mut state = State::default();
    state.update(Message::Main(MessageMain::Sale));
    let m = key_binding(state.key_mode(), Key::F12).unwrap();
    state.update(m);
    assert!(sale_of(&state).paying);
    let m = key_binding(state.key_mode(), Key::F12).unwrap();
    state.update(m);
    assert!(!sale_of(&state).paying);
    assert_eq!(sale_of(&state).received, "0");
}

#[test]
fn repeated_barcode_update_is_no_op() {
    let mut state = State::default();
    state.update(Message::Main(MessageMain::Sale));
    let c1 = state.update(Message::Sale(MessageSale::BarcodeChanged("55".to_string())));
    let mut again = State::default();
    again.update(Message::Main(MessageMain::Sale));
    again.update(Message::Sale(MessageSale::BarcodeChanged("55".to_string())));
    let c2 = again.update(Message::Sale(MessageSale::BarcodeChanged("55".to_string())));
    assert_eq!(c1, Command::Nothing);
    assert_eq!(c2, Command::Nothing);
    assert_eq!(state, again);
}
