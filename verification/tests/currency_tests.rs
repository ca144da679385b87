use finance_calc::currency::get_currency_symbol;

#[test]
fn known_codes_have_their_symbols() {
    assert_eq!(get_currency_symbol("EUR"), "€");
    assert_eq!(get_currency_symbol("USD"), "$");
    assert_eq!(get_currency_symbol("UAH"), "₴");
    assert_eq!(get_currency_symbol("BTC"), "₿");
}

#[test]
fn unknown_codes_fall_back_to_euro() {
    assert_eq!(get_currency_symbol("GBP"), "€");
    assert_eq!(get_currency_symbol("XYZ"), "€");
    assert_eq!(get_currency_symbol(""), "€");
}

#[test]
fn codes_are_matched_exactly() {
    assert_eq!(get_currency_symbol("usd"), "€");
    assert_eq!(get_currency_symbol("USD "), "€");
    assert_eq!(get_currency_symbol("US"), "€");
    assert_eq!(get_currency_symbol("USDT"), "€");
}

#[test]
fn symbol_lookup_is_repeatable() {
    for code in ["EUR", "USD", "UAH", "BTC", "JPY", ""] {
        assert_eq!(get_currency_symbol(code), get_currency_symbol(code));
    }
}
