use card_game::utils::text::{push_decimal, to_decimal};

#[test]
fn numerals() {
    assert_eq!(to_decimal(0), "0");
    assert_eq!(to_decimal(7), "7");
    assert_eq!(to_decimal(9), "9");
    assert_eq!(to_decimal(10), "10");
    assert_eq!(to_decimal(99), "99");
    assert_eq!(to_decimal(100), "100");
    assert_eq!(to_decimal(108), "108");
    assert_eq!(to_decimal(1234567890), "1234567890");
    assert_eq!(to_decimal(u64::MAX), "18446744073709551615");
}

#[test]
fn numerals_agree_with_the_standard_rendering() {
    for n in 0u64..2000 {
        assert_eq!(to_decimal(n), format!("{}", n));
    }
}

#[test]
fn a_numeral_is_appended() {
    let mut out = String::from("cards remaining: ");
    push_decimal(&mut out, 54);
    assert_eq!(out, "cards remaining: 54");
    push_decimal(&mut out, 0);
    assert_eq!(out, "cards remaining: 540");
}
