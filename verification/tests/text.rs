use adapter_report::text::{digit_str, push_decimal, push_padded, push_upper_hex};

#[test]
fn digits_up_to_fifteen() {
    let expected = "0123456789ABCDEF";
    let mut all = String::new();
    let mut d: u8 = 0;
    while d < 16 {
        all.push_str(digit_str(d));
        d += 1;
    }
    assert_eq!(all, expected);
}

#[test]
fn decimal_is_what_the_standard_library_writes() {
    let samples: [u64; 9] = [0, 1, 9, 10, 99, 100, 1023, 4294967295, u64::MAX];
    for n in samples {
        let mut out = String::new();
        push_decimal(&mut out, n);
        assert_eq!(out, n.to_string());
    }
}

#[test]
fn decimal_is_appended_to_what_is_there() {
    let mut out = String::from("n = ");
    push_decimal(&mut out, 2048);
    assert_eq!(out, "n = 2048");
}

#[test]
fn hexadecimal_has_capital_letters_and_no_leading_zeros() {
    let samples: [u64; 8] = [0, 9, 10, 15, 16, 255, 0xDEADBEEF, u64::MAX];
    for n in samples {
        let mut out = String::new();
        push_upper_hex(&mut out, n);
        assert_eq!(out, format!("{:X}", n));
    }
}

#[test]
fn padding_fills_up_to_the_width() {
    let mut out = String::new();
    push_padded(&mut out, "Name:", 30);
    assert_eq!(out, format!("{: <30}", "Name:"));
    assert_eq!(out.len(), 30);
}

#[test]
fn padding_leaves_long_text_alone() {
    let mut out = String::from(">");
    push_padded(&mut out, "abcdef", 3);
    assert_eq!(out, ">abcdef");
    let mut exact = String::new();
    push_padded(&mut exact, "abc", 3);
    assert_eq!(exact, "abc");
    let mut none = String::new();
    push_padded(&mut none, "", 0);
    assert_eq!(none, "");
}

#[test]
fn padding_counts_characters_not_bytes() {
    let mut out = String::new();
    push_padded(&mut out, "Größe", 8);
    assert_eq!(out, format!("{: <8}", "Größe"));
    assert_eq!(out.chars().count(), 8);
}
