use orbit::text::{
    chars_of, is_white_space_char, parse_i32, push_decimal_i64, push_decimal_u64, str_contains, str_equal,
    string_from_chars, trim_str,
};

#[test]
fn contains_matches_std() {
    let texts = ["", "a", "std::fs::read", "hello world", "ababab", "çşğüö::x"];
    let pats = ["", "a", "std::fs", "world", "bab", "::", "zz", "ğü"];
    for t in texts.iter() {
        for p in pats.iter() {
            assert_eq!(str_contains(t, p), t.contains(p), "{:?} in {:?}", p, t);
        }
    }
}

#[test]
fn trim_matches_std() {
    let cases = [
        "",
        "   ",
        "  x  ",
        "\t\n{\"a\": 1}\r\n",
        "\u{3000}wide\u{2009}",
        "\u{85}a b\u{a0}",
        "no-trim",
        " inner  spaces ",
    ];
    for c in cases.iter() {
        assert_eq!(trim_str(c), c.trim(), "trim of {:?}", c);
    }
}

#[test]
fn parse_matches_std() {
    let cases = [
        "", "0", "-0", "+0", "42", "-42", "+7", "+", "-", "2147483647", "2147483648",
        "-2147483648", "-2147483649", "00012", "1a", " 1", "1 ", "99999999999999999999",
        "-000000000000000000001", "١٢",
    ];
    for c in cases.iter() {
        assert_eq!(parse_i32(c), c.parse::<i32>().ok(), "parse of {:?}", c);
    }
}

#[test]
fn decimal_matches_display() {
    for n in [0u64, 7, 10, 99, 100, 12345, u64::MAX].iter() {
        let mut s = String::new();
        push_decimal_u64(&mut s, *n);
        assert_eq!(s, n.to_string());
    }
    for n in [0i64, -1, 5, -10, 123456, i64::MIN, i64::MAX].iter() {
        let mut s = String::from("x=");
        push_decimal_i64(&mut s, *n);
        assert_eq!(s, format!("x={}", n));
    }
}

#[test]
fn chars_round_trip() {
    let s = "Genişlik 📐 (m)";
    let v = chars_of(s);
    assert_eq!(v.len(), s.chars().count());
    assert_eq!(string_from_chars(&v), s);
    assert!(str_equal(s, "Genişlik 📐 (m)"));
    assert!(!str_equal(s, "Genislik 📐 (m)"));
}

#[test]
fn decimal_reads_back() {
    for n in [0i32, 9, -9, 10, -10, 2147483647, -2147483648, 123456].iter() {
        let mut s = String::new();
        push_decimal_i64(&mut s, *n as i64);
        assert_eq!(parse_i32(&s), Some(*n));
    }
}

#[test]
fn trimming_twice_is_trimming_once() {
    for c in ["  a b  ", "\u{2003}x\n", "", "   "].iter() {
        let once = trim_str(c);
        assert_eq!(trim_str(&once), once);
    }
}

#[test]
fn white_space_matches_std() {
    for u in 0u32..0x11000 {
        if let Some(c) = char::from_u32(u) {
            assert_eq!(is_white_space_char(c), c.is_whitespace(), "U+{:04X}", u);
        }
    }
}
