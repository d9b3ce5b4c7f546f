use rvterminal::money::{
    apply_stock_delta, format_money, i32_to_string, is_count, is_digits, parse_money,
    parse_money_signed, parse_u32_digits, suggested_sell_price,
};

#[test]
fn money_works() {
    assert_eq!(format_money(&42), "0.42");
    assert_eq!(format_money(&100), "1.00");
    assert_eq!(format_money(&142), "1.42");
    assert_eq!(format_money(&0), "0.00");
    assert_eq!(format_money(&-42), "-0.42");
    assert_eq!(format_money(&-100), "-1.00");
    assert_eq!(format_money(&-142), "-1.42");
    assert_eq!(format_money(&12342), "123.42");
    assert_eq!(format_money(&-12342), "-123.42");
}

#[test]
fn money_round_trips() {
    for n in [0i32, 42, -142, 12342, 1, -1, 99, 100, -100, i32::MAX, i32::MIN + 1] {
        let text = format_money(&n);
        assert_eq!(parse_money_signed(&text), Some(n), "round trip of {n} via {text}");
    }
    assert_eq!(parse_money("0.42"), Some(42));
    assert_eq!(parse_money("123.42"), Some(12342));
    assert_eq!(parse_money_signed("-1.42"), Some(-142));
    assert_eq!(parse_money_signed("0.00"), Some(0));
}

#[test]
fn money_rejects_malformed_text() {
    assert_eq!(parse_money(""), None);
    assert_eq!(parse_money("1"), None);
    assert_eq!(parse_money("1.2"), None);
    assert_eq!(parse_money("1.234"), None);
    assert_eq!(parse_money(".42"), None);
    assert_eq!(parse_money("1,00"), None);
    assert_eq!(parse_money("a.00"), None);
    assert_eq!(parse_money("-1.00"), None);
    assert_eq!(parse_money_signed("--1.00"), None);
    assert_eq!(parse_money("99999999999999999999.00"), None);
}

#[test]
fn digit_validators() {
    assert!(is_digits("0123"));
    assert!(!is_digits(""));
    assert!(!is_digits("12a"));
    assert!(!is_digits("1.2"));
    assert!(is_count("120"));
    assert!(!is_count("012"));
    assert!(!is_count(""));
    assert_eq!(parse_u32_digits("000"), Some(0));
    assert_eq!(parse_u32_digits("4294967295"), Some(u32::MAX));
    assert_eq!(parse_u32_digits("4294967296"), None);
    assert_eq!(parse_u32_digits("12x"), None);
}

#[test]
fn stock_answers() {
    assert_eq!(apply_stock_delta(2, "+5"), Some(7));
    assert_eq!(apply_stock_delta(2, "5"), Some(5));
    assert_eq!(apply_stock_delta(2, "-5"), Some(-5));
    assert_eq!(apply_stock_delta(2, ""), None);
    assert_eq!(apply_stock_delta(2, "+"), None);
    assert_eq!(apply_stock_delta(2, "5x"), None);
    assert_eq!(apply_stock_delta(i32::MAX, "+1"), None);
}

#[test]
fn suggested_prices_round_up() {
    // A 35% margin on 1.00 suggests 1.35.
    assert_eq!(suggested_sell_price(100, 3500), Some(135));
    // Rounding is always upward to the next minor unit.
    assert_eq!(suggested_sell_price(101, 1), Some(102));
    assert_eq!(suggested_sell_price(0, 3500), Some(0));
    assert_eq!(suggested_sell_price(u32::MAX, 1_000_000), None);
}

#[test]
fn plain_number_formatting() {
    assert_eq!(i32_to_string(0), "0");
    assert_eq!(i32_to_string(7), "7");
    assert_eq!(i32_to_string(-5), "-5");
    assert_eq!(i32_to_string(1203), "1203");
}
