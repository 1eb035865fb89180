use task_board::text::{equals_ignoring_ascii_case, is_float_text, parse_unsigned, push_decimal};

#[test]
fn decimal_text() {
    for n in [0u64, 7, 10, 99, 100, 5432, 65535, 4294967295, u64::MAX] {
        let mut s = String::from("x=");
        push_decimal(&mut s, n);
        assert_eq!(s, format!("x={}", n));
    }
}

#[test]
fn unsigned_parsing_matches_std() {
    for s in ["0", "00", "+1", "65535", "65536", "", "+", "-", "-0", " 1", "1 ", "1_000", "٣", "99999999999999999999"] {
        assert_eq!(parse_unsigned(s, 65535), s.parse::<u16>().ok().map(|n| n as u64), "{:?}", s);
        assert_eq!(parse_unsigned(s, 255), s.parse::<u8>().ok().map(|n| n as u64), "{:?}", s);
        assert_eq!(parse_unsigned(s, 4294967295), s.parse::<u32>().ok().map(|n| n as u64), "{:?}", s);
    }
}

#[test]
fn printing_then_parsing_gives_the_number_back() {
    for n in [0u64, 9, 10, 255, 65535] {
        let mut s = String::new();
        push_decimal(&mut s, n);
        assert_eq!(parse_unsigned(&s, 65535), Some(n));
    }
}

#[test]
fn float_texts_match_std() {
    let cases = [
        "0", "1", "1.", ".1", "1.5", "1e5", "1E5", "1e-5", "1e+5", "+1", "-1", "inf", "INF", "-inf",
        "infinity", "Infinity", "+INFINITY", "nan", "NaN", "-nan", "", ".", "+", "-", "e", "1e", "1e+",
        ".e1", "1.e1", ".5e-3", "1..2", "1.2.3", "1e1e1", "1e1.5", " 1", "1 ", "0x1", "1f", "infin",
        "nana", "++1", "+-1", "١", "1_0", "123456789012345678901234567890",
    ];
    for s in cases {
        assert_eq!(is_float_text(s), s.parse::<f64>().is_ok(), "{:?}", s);
    }
}

#[test]
fn ascii_case_insensitive_words() {
    assert!(equals_ignoring_ascii_case("FALSE", "false"));
    assert!(equals_ignoring_ascii_case("fAlSe", "false"));
    assert!(!equals_ignoring_ascii_case("falsey", "false"));
    assert!(!equals_ignoring_ascii_case("fals", "false"));
    assert!(!equals_ignoring_ascii_case("", "false"));
    for s in ["false", "FALSE", "False", "ſalse", "falſe", "TRUE", "true", "tRuE", "Kfalse"] {
        assert_eq!(equals_ignoring_ascii_case(s, "false"), s.to_lowercase() == "false", "{:?}", s);
        assert_eq!(equals_ignoring_ascii_case(s, "true"), s.to_lowercase() == "true", "{:?}", s);
    }
}
