use todo_api::text::{parse_i32_chars, push_decimal};

fn decimal(n: i32) -> String {
    let mut s = String::new();
    push_decimal(&mut s, n);
    s
}

fn parse(text: &str) -> Option<i32> {
    let chars: Vec<char> = text.chars().collect();
    parse_i32_chars(&chars)
}

#[test]
fn decimal_matches_display() {
    for n in [0, 7, 10, 42, -1, -42, 1000, 2147483647, -2147483648, 123456789, -100] {
        assert_eq!(decimal(n), n.to_string());
    }
}

#[test]
fn decimal_appends() {
    let mut s = String::from("id=");
    push_decimal(&mut s, -305);
    assert_eq!(s, "id=-305");
}

#[test]
fn parse_reads_numbers() {
    assert_eq!(parse("12"), Some(12));
    assert_eq!(parse("-12"), Some(-12));
    assert_eq!(parse("+7"), Some(7));
    assert_eq!(parse("007"), Some(7));
    assert_eq!(parse("0"), Some(0));
    assert_eq!(parse("2147483647"), Some(i32::MAX));
    assert_eq!(parse("-2147483648"), Some(i32::MIN));
}

#[test]
fn parse_refuses_non_numbers() {
    for text in ["", "+", "-", "2147483648", "-2147483649", "12a", " 1", "1 ", "1.5", "--1", "99999999999999"] {
        assert_eq!(parse(text), None, "{:?}", text);
    }
}

#[test]
fn parse_agrees_with_std() {
    for text in ["5", "-0", "+0", "00", "-", "+-1", "4294967296", "21474836470", "-2147483648", "x"] {
        assert_eq!(parse(text), text.parse::<i32>().ok(), "{:?}", text);
    }
}

#[test]
fn parse_reads_back_decimal() {
    for n in [0, 1, -1, 99, -99, i32::MAX, i32::MIN] {
        assert_eq!(parse(&decimal(n)), Some(n));
    }
}
