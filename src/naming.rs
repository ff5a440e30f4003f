//! Case conversions used to derive type-like names from metric identifiers.

use vstd::prelude::*;

use crate::text::push_char;

verus! {

/// An ASCII letter or digit.
pub open spec fn is_ascii_alnum(c: char) -> bool {
    ('a' <= c && c <= 'z') || ('A' <= c && c <= 'Z') || ('0' <= c && c <= '9')
}

/// `c` with an ASCII lower-case letter mapped to upper case.
pub open spec fn ascii_upper(c: char) -> char {
    if 'a' <= c && c <= 'z' {
        (((c as u8) - 32) as u8) as char
    } else {
        c
    }
}

/// `c` with an ASCII upper-case letter mapped to lower case.
pub open spec fn ascii_lower(c: char) -> char {
    if 'A' <= c && c <= 'Z' {
        (((c as u8) + 32) as u8) as char
    } else {
        c
    }
}

/// One step of the PascalCase scan: the output so far and whether the next
/// letter or digit starts a word.
pub open spec fn pascal_step(acc: (Seq<char>, bool), c: char) -> (Seq<char>, bool) {
    if c == '_' {
        (acc.0, true)
    } else if is_ascii_alnum(c) {
        if acc.1 {
            (acc.0.push(ascii_upper(c)), false)
        } else {
            (acc.0.push(ascii_lower(c)), false)
        }
    } else {
        (acc.0, true)
    }
}

pub open spec fn pascal_scan(s: Seq<char>) -> (Seq<char>, bool)
    decreases s.len(),
{
    if s.len() == 0 {
        (Seq::empty(), true)
    } else {
        pascal_step(pascal_scan(s.drop_last()), s.last())
    }
}

/// PascalCase of `s`: every character that is neither an ASCII letter nor a
/// digit separates words and is dropped; the first character of each word is
/// upper-cased and the rest lower-cased.
pub open spec fn pascal_of(s: Seq<char>) -> Seq<char> {
    pascal_scan(s).0
}

fn upper_ascii(c: char) -> (r: char)
    ensures
        r == ascii_upper(c),
{
    if 'a' <= c && c <= 'z' {
        ((c as u8) - 32) as char
    } else {
        c
    }
}

fn lower_ascii(c: char) -> (r: char)
    ensures
        r == ascii_lower(c),
{
    if 'A' <= c && c <= 'Z' {
        ((c as u8) + 32) as char
    } else {
        c
    }
}

/// Convert a snake_case string to PascalCase.
pub fn snake_to_pascal(s: &str) -> (r: String)
    ensures
        r@ == pascal_of(s@),
{
    let n = s.unicode_len();
    let mut result = String::new();
    let mut capitalize_next = true;
    let mut i: usize = 0;
    while i < n
        invariant
            n == s@.len(),
            i <= n,
            (result@, capitalize_next) == pascal_scan(s@.subrange(0, i as int)),
        decreases n - i,
    {
        let ch = s.get_char(i);
        proof {
            assert(s@.subrange(0, i + 1).drop_last() =~= s@.subrange(0, i as int));
        }
        if ch == '_' {
            capitalize_next = true;
        } else if ('a' <= ch && ch <= 'z') || ('A' <= ch && ch <= 'Z') || ('0' <= ch && ch <= '9') {
            if capitalize_next {
                push_char(&mut result, upper_ascii(ch));
                capitalize_next = false;
            } else {
                push_char(&mut result, lower_ascii(ch));
            }
        } else {
            capitalize_next = true;
        }
        i = i + 1;
    }
    proof {
        assert(s@.subrange(0, n as int) =~= s@);
    }
    result
}

/// Whether `char::is_uppercase` holds of `c` (Unicode `Uppercase` property).
pub uninterp spec fn unicode_upper(c: char) -> bool;

/// Whether `char::is_lowercase` holds of `c` (Unicode `Lowercase` property).
pub uninterp spec fn unicode_lower(c: char) -> bool;

/// Relies on `char::is_uppercase`: a property of the character alone;
/// among ASCII characters it holds of the capitals exactly.
#[verifier::external_body]
fn is_upper(c: char) -> (r: bool)
    ensures
        r == unicode_upper(c),
        (c as u32) < 128 ==> (r <==> ('A' <= c && c <= 'Z')),
{
    c.is_uppercase()
}

/// Relies on `char::is_lowercase`: a property of the character alone;
/// among ASCII characters it holds of the small letters exactly.
#[verifier::external_body]
fn is_lower(c: char) -> (r: bool)
    ensures
        r == unicode_lower(c),
        (c as u32) < 128 ==> (r <==> ('a' <= c && c <= 'z')),
{
    c.is_lowercase()
}

/// One step of the SCREAMING_SNAKE_CASE scan: the output so far and whether
/// the previous character was lower case.
pub open spec fn scream_step(acc: (Seq<char>, bool), c: char) -> (Seq<char>, bool) {
    let out = if unicode_upper(c) && acc.1 && acc.0.len() > 0 {
        acc.0.push('_')
    } else {
        acc.0
    };
    (out.push(ascii_upper(c)), unicode_lower(c))
}

pub open spec fn scream_scan(s: Seq<char>) -> (Seq<char>, bool)
    decreases s.len(),
{
    if s.len() == 0 {
        (Seq::empty(), false)
    } else {
        scream_step(scream_scan(s.drop_last()), s.last())
    }
}

/// SCREAMING_SNAKE_CASE of `s`: every character ASCII-upper-cased, with an
/// underscore before each upper-case character that follows a lower-case one.
pub open spec fn screaming_of(s: Seq<char>) -> Seq<char> {
    scream_scan(s).0
}

/// Every character of `s` is ASCII.
pub open spec fn all_ascii(s: Seq<char>) -> bool {
    forall|i: int| 0 <= i < s.len() ==> (#[trigger] s[i] as u32) < 128
}

/// The SCREAMING_SNAKE_CASE scan on ASCII text, where upper and lower case
/// are the ASCII capitals and small letters.
pub open spec fn scream_ascii_scan(s: Seq<char>) -> (Seq<char>, bool)
    decreases s.len(),
{
    if s.len() == 0 {
        (Seq::empty(), false)
    } else {
        let acc = scream_ascii_scan(s.drop_last());
        let c = s.last();
        let out = if 'A' <= c && c <= 'Z' && acc.1 && acc.0.len() > 0 {
            acc.0.push('_')
        } else {
            acc.0
        };
        (out.push(ascii_upper(c)), 'a' <= c && c <= 'z')
    }
}

/// Convert a string to SCREAMING_SNAKE_CASE.
pub fn to_screaming_snake(s: &str) -> (r: String)
    ensures
        r@ == screaming_of(s@),
        all_ascii(s@) ==> r@ == scream_ascii_scan(s@).0,
{
    let n = s.unicode_len();
    let mut result = String::new();
    let mut prev_was_lower = false;
    let mut i: usize = 0;
    while i < n
        invariant
            n == s@.len(),
            i <= n,
            result@.len() > 0 <==> i > 0,
            (result@, prev_was_lower) == scream_scan(s@.subrange(0, i as int)),
            all_ascii(s@) ==> (result@, prev_was_lower) == scream_ascii_scan(
                s@.subrange(0, i as int),
            ),
        decreases n - i,
    {
        let ch = s.get_char(i);
        proof {
            assert(s@.subrange(0, i + 1).drop_last() =~= s@.subrange(0, i as int));
        }
        let upper = is_upper(ch);
        let lower = is_lower(ch);
        proof {
            if all_ascii(s@) {
                assert((s@[i as int] as u32) < 128);
            }
        }
        if upper && prev_was_lower && i > 0 {
            push_char(&mut result, '_');
        }
        push_char(&mut result, upper_ascii(ch));
        prev_was_lower = lower;
        i = i + 1;
    }
    proof {
        assert(s@.subrange(0, n as int) =~= s@);
    }
    result
}

} // verus!
