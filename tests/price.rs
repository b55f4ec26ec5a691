use mensa_upb_scraper::{price_to_bigdecimal, replace_commas, Decimal};

#[test]
fn price_with_comma_and_currency() {
    assert_eq!(price_to_bigdecimal(Some("3,50 €")), Decimal::new(350, 2));
    assert_eq!(price_to_bigdecimal(Some("12,00 €")), Decimal::new(1200, 2));
}

#[test]
fn missing_or_unreadable_price_is_sentinel() {
    assert_eq!(price_to_bigdecimal(None), Decimal::new(99999, 2));
    assert_eq!(price_to_bigdecimal(Some("")), Decimal::new(99999, 2));
    assert_eq!(price_to_bigdecimal(Some("abc")), Decimal::new(99999, 2));
    assert_eq!(Decimal::sentinel(), Decimal::new(99999, 2));
}

#[test]
fn price_without_currency_and_with_spaces() {
    assert_eq!(price_to_bigdecimal(Some("4,2")), Decimal::new(420, 2));
    assert_eq!(price_to_bigdecimal(Some(" 1,95  €")), Decimal::new(195, 2));
    assert_eq!(price_to_bigdecimal(Some("3,50€")), Decimal::new(350, 2));
    assert_eq!(price_to_bigdecimal(Some(" 3,50 € ")), Decimal::new(350, 2));
    assert_eq!(price_to_bigdecimal(Some("7")), Decimal::new(700, 2));
}

#[test]
fn commas_become_points() {
    assert_eq!(replace_commas("3,50"), "3.50");
    assert_eq!(replace_commas("a,b,,c"), "a.b..c");
    assert_eq!(replace_commas(""), "");
}

#[test]
fn three_decimal_places_are_kept() {
    assert_eq!(price_to_bigdecimal(Some("1,005 €")), Decimal::new(1005, 3));
}
