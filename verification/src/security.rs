//! The screening of submitted source code: text that names file, process,
//! network or environment access, or defines macros, is refused before it
//! reaches the build sandbox.
use vstd::prelude::*;
use crate::text::{contains_seq, str_contains, push_str};

verus! {

/// How many terms the screening refuses.
pub const BLACKLIST_LEN: usize = 7;

/// The refused terms, in the order in which they are looked for.
pub open spec fn blacklisted_term(k: int) -> Seq<char> {
    if k == 0 {
        "std::fs"@
    } else if k == 1 {
        "std::process"@
    } else if k == 2 {
        "std::net"@
    } else if k == 3 {
        "std::env"@
    } else if k == 4 {
        "Command::"@
    } else if k == 5 {
        "File::"@
    } else {
        "macro_rules!"@
    }
}

/// The text that opens the message of a refusal; the refused term follows it.
pub const VIOLATION_PREFIX: &'static str = "Güvenlik İhlali! Yasaklı terim tespit edildi: ";

/// The refused term with index `k < BLACKLIST_LEN`.
pub fn blacklisted_term_str(k: usize) -> (t: &'static str)
    requires
        k < BLACKLIST_LEN,
    ensures
        t@ == blacklisted_term(k as int),
{
    if k == 0 {
        "std::fs"
    } else if k == 1 {
        "std::process"
    } else if k == 2 {
        "std::net"
    } else if k == 3 {
        "std::env"
    } else if k == 4 {
        "Command::"
    } else if k == 5 {
        "File::"
    } else {
        "macro_rules!"
    }
}

/// The first refused term (by its index in the list) that occurs in `code`.
pub open spec fn is_first_violation(code: Seq<char>, k: int) -> bool {
    &&& 0 <= k < BLACKLIST_LEN
    &&& contains_seq(code, blacklisted_term(k))
    &&& forall|j: int| 0 <= j < k ==> !contains_seq(code, #[trigger] blacklisted_term(j))
}

/// No refused term occurs in `code`.
pub open spec fn code_is_safe(code: Seq<char>) -> bool {
    forall|k: int| 0 <= k < BLACKLIST_LEN ==> !contains_seq(code, #[trigger] blacklisted_term(k))
}

/// The message that refuses code in which the term with index `k` was found.
pub open spec fn violation_message(k: int) -> Seq<char> {
    VIOLATION_PREFIX@ + blacklisted_term(k)
}

/// Screens `code`: `Ok` when no refused term occurs in it; otherwise `Err`
/// with the message that names the first refused term, in list order, that
/// occurs in it.
pub fn is_code_safe(code: &str) -> (r: Result<(), String>)
    ensures
        r is Ok <==> code_is_safe(code@),
        r matches Err(m) ==> exists|k: int|
            #[trigger] is_first_violation(code@, k) && m@ == violation_message(k),
{
    let mut k: usize = 0;
    while k < BLACKLIST_LEN
        invariant
            k <= BLACKLIST_LEN,
            forall|j: int| 0 <= j < k ==> !contains_seq(code@, #[trigger] blacklisted_term(j)),
        decreases BLACKLIST_LEN - k,
    {
        let term = blacklisted_term_str(k);
        if str_contains(code, term) {
            let mut m = String::new();
            push_str(&mut m, VIOLATION_PREFIX);
            push_str(&mut m, term);
            assert(is_first_violation(code@, k as int));
            return Err(m);
        }
        k += 1;
    }
    Ok(())
}

/// The texts of a sequence of strings.
pub open spec fn string_views(v: Seq<String>) -> Seq<Seq<char>> {
    v.map_values(|s: String| s@)
}

} // verus!
