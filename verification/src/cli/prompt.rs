//! Reading answers at interactive prompts: the decisions made on each answer. Asking
//! and reading the terminal is the host's work.
use vstd::prelude::*;

use crate::text::{chars_of, copy_str, push_char, str_eq};

use super::args::CliAuthKind;

verus! {

/// A character in lower case, for ASCII letters.
pub open spec fn spec_lower(c: char) -> char {
    if 'A' <= c && c <= 'Z' {
        ((c as u32) + 32) as char
    } else {
        c
    }
}

/// A text with its ASCII letters in lower case, as `str::to_ascii_lowercase` gives it.
pub open spec fn spec_ascii_lowercase(s: Seq<char>) -> Seq<char> {
    s.map_values(|c: char| spec_lower(c))
}

/// A text with its ASCII letters in lower case.
pub fn ascii_lowercase(s: &str) -> (r: String)
    ensures
        r@ == spec_ascii_lowercase(s@),
{
    let chars = chars_of(s);
    let mut out = String::new();
    let mut i: usize = 0;
    while i < chars.len()
        invariant
            i <= chars.len(),
            chars@ == s@,
            out@ == spec_ascii_lowercase(chars@.take(i as int)),
        decreases chars.len() - i,
    {
        let c = chars[i];
        let lower = if 'A' <= c && c <= 'Z' {
            let code: u8 = (c as u8) + 32;
            code as char
        } else {
            c
        };
        assert(lower == spec_lower(c)) by {
            if 'A' <= c && c <= 'Z' {
                assert(lower as u32 == c as u32 + 32);
            }
        }
        push_char(&mut out, lower);
        assert(chars@.take(i + 1) == chars@.take(i as int).push(c));
        assert(spec_ascii_lowercase(chars@.take(i + 1)) == spec_ascii_lowercase(chars@.take(i as int)).push(spec_lower(c)));
        i = i + 1;
    }
    assert(chars@.take(chars.len() as int) == chars@);
    out
}

/// The authentication kind an answer names, ignoring ASCII case; an empty answer takes
/// basic. `None` asks again.
pub open spec fn spec_auth_kind_answer(value: Seq<char>) -> Option<CliAuthKind> {
    let v = spec_ascii_lowercase(value);
    if v == ""@ || v == "basic"@ {
        Some(CliAuthKind::Basic)
    } else if v == "bearer"@ {
        Some(CliAuthKind::Bearer)
    } else if v == "mtls"@ {
        Some(CliAuthKind::Mtls)
    } else {
        None
    }
}

/// The authentication kind an answer names.
pub fn auth_kind_answer(value: &str) -> (r: Option<CliAuthKind>)
    ensures
        r == spec_auth_kind_answer(value@),
{
    let v = ascii_lowercase(value);
    let s = v.as_str();
    if str_eq(s, "") || str_eq(s, "basic") {
        Some(CliAuthKind::Basic)
    } else if str_eq(s, "bearer") {
        Some(CliAuthKind::Bearer)
    } else if str_eq(s, "mtls") {
        Some(CliAuthKind::Mtls)
    } else {
        None
    }
}

/// The yes or no an answer gives, ignoring ASCII case; an empty answer takes the
/// default. `None` asks again.
pub open spec fn spec_bool_answer(value: Seq<char>, default: bool) -> Option<bool> {
    let v = spec_ascii_lowercase(value);
    if v == ""@ {
        Some(default)
    } else if v == "y"@ || v == "yes"@ || v == "true"@ || v == "1"@ {
        Some(true)
    } else if v == "n"@ || v == "no"@ || v == "false"@ || v == "0"@ {
        Some(false)
    } else {
        None
    }
}

/// The yes or no an answer gives.
pub fn bool_answer(value: &str, default: bool) -> (r: Option<bool>)
    ensures
        r == spec_bool_answer(value@, default),
{
    let v = ascii_lowercase(value);
    let s = v.as_str();
    if str_eq(s, "") {
        Some(default)
    } else if str_eq(s, "y") || str_eq(s, "yes") || str_eq(s, "true") || str_eq(s, "1") {
        Some(true)
    } else if str_eq(s, "n") || str_eq(s, "no") || str_eq(s, "false") || str_eq(s, "0") {
        Some(false)
    } else {
        None
    }
}

/// The question asked for a yes or no, with the default in capitals.
pub open spec fn spec_bool_label(label: Seq<char>, default: bool) -> Seq<char> {
    label + " ["@ + (if default {
        "Y/n"@
    } else {
        "y/N"@
    }) + "]: "@
}

/// The question asked for a yes or no.
pub fn bool_label(label: &str, default: bool) -> (r: String)
    ensures
        r@ == spec_bool_label(label@, default),
{
    let mut s = copy_str(label);
    s.append(" [");
    s.append(if default {
        "Y/n"
    } else {
        "y/N"
    });
    s.append("]: ");
    s
}

/// An optional answer: absent when empty.
pub fn optional_answer(value: String) -> (r: Option<String>)
    ensures
        value@.len() == 0 ==> r is None,
        value@.len() > 0 ==> (r matches Some(s) && s@ == value@),
{
    if value.as_str().is_empty() {
        None
    } else {
        Some(value)
    }
}

} // verus!
