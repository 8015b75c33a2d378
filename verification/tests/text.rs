use memstress::text::decimal_string;
use memstress::text::digit;
use memstress::text::push_decimal;
use memstress::text::push_str;
use memstress::text::string_of;

#[test]
fn digits_are_the_ten_numerals() {
    let expected: [char; 10] = ['0', '1', '2', '3', '4', '5', '6', '7', '8', '9'];
    let mut d: u8 = 0;
    while d < 10 {
        assert_eq!(digit(d), expected[d as usize]);
        d += 1;
    }
}

#[test]
fn decimal_of_zero_and_small_numbers() {
    assert_eq!(decimal_string(0), "0");
    assert_eq!(decimal_string(7), "7");
    assert_eq!(decimal_string(10), "10");
    assert_eq!(decimal_string(1982), "1982");
    assert_eq!(decimal_string(100_000), "100000");
}

#[test]
fn decimal_of_the_largest_numbers() {
    assert_eq!(decimal_string(u64::MAX as u128), "18446744073709551615");
    assert_eq!(decimal_string(u128::MAX), "340282366920938463463374607431768211455");
}

#[test]
fn decimal_agrees_with_the_standard_formatting() {
    let mut n: u128 = 1;
    while n < u128::MAX / 7 {
        assert_eq!(decimal_string(n), format!("{}", n));
        assert_eq!(decimal_string(n - 1), format!("{}", n - 1));
        n *= 7;
    }
}

#[test]
fn push_decimal_appends() {
    let mut out: Vec<char> = vec!['n', '='];
    push_decimal(&mut out, 305);
    assert_eq!(out, vec!['n', '=', '3', '0', '5']);
}

#[test]
fn push_str_appends_every_character() {
    let mut out: Vec<char> = vec!['a'];
    push_str(&mut out, "bc");
    push_str(&mut out, "");
    push_str(&mut out, "\u{e9}t\u{e9}");
    assert_eq!(out, vec!['a', 'b', 'c', '\u{e9}', 't', '\u{e9}']);
}

#[test]
fn string_of_holds_the_characters_in_order() {
    let chars: Vec<char> = vec!['1', '.', '5', 'K'];
    assert_eq!(string_of(&chars), "1.5K");
    let none: Vec<char> = Vec::new();
    assert_eq!(string_of(&none), "");
    let wide: Vec<char> = vec!['\u{e9}', '\u{4e2d}', 'x'];
    assert_eq!(string_of(&wide), "\u{e9}\u{4e2d}x");
}
