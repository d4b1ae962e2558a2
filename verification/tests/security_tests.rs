use orbit::security::{is_code_safe, BLACKLIST_LEN, VIOLATION_PREFIX};

#[test]
fn safe_code_is_accepted() {
    assert_eq!(is_code_safe("pub fn alan_bul(a: i32, b: i32) -> i32 { a * b }"), Ok(()));
    assert_eq!(is_code_safe(""), Ok(()));
}

#[test]
fn each_term_is_refused() {
    let terms = [
        "std::fs", "std::process", "std::net", "std::env", "Command::", "File::", "macro_rules!",
    ];
    assert_eq!(terms.len(), BLACKLIST_LEN);
    for t in terms.iter() {
        let code = format!("fn main() {{ let x = {}; }}", t);
        assert_eq!(
            is_code_safe(&code),
            Err(format!("Güvenlik İhlali! Yasaklı terim tespit edildi: {}", t))
        );
    }
}

#[test]
fn first_term_in_list_order_is_named() {
    // "File::" comes after "std::fs" in the list, though it appears first in the text.
    let code = "File::open(); use std::fs;";
    assert_eq!(
        is_code_safe(code),
        Err(format!("{}std::fs", VIOLATION_PREFIX))
    );
}
