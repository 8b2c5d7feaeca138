//! The rules for static files: which paths are served, and the media type
//! of a file by its extension. Both read the path as the file service will:
//! with its percent-encoded characters decoded.

use vstd::prelude::*;
use crate::response::ContentType;
use crate::text::{chars_of, ends_with, holds_at, text_from};

verus! {

/// The segment `..` stands in `path` at position `at`: two dots between the
/// beginning, the end or a `/` on either side.
pub open spec fn parent_segment_at(path: Seq<char>, at: int) -> bool {
    &&& 0 <= at
    &&& at + 2 <= path.len()
    &&& (at == 0 || path[at - 1] == '/')
    &&& path[at] == '.'
    &&& path[at + 1] == '.'
    &&& (at + 2 == path.len() || path[at + 2] == '/')
}

/// One of the segments of `path` is `..`.
pub open spec fn has_parent_segment(path: Seq<char>) -> bool {
    exists|at: int| parent_segment_at(path, at)
}

/// A digit of base 16, in either case.
pub open spec fn is_hex(c: char) -> bool {
    ('0' <= c <= '9') || ('a' <= c <= 'f') || ('A' <= c <= 'F')
}

/// The number that a digit of base 16 stands for.
pub open spec fn hex_value(c: char) -> int {
    if '0' <= c <= '9' {
        c as u32 - '0' as u32
    } else if 'a' <= c <= 'f' {
        c as u32 - 'a' as u32 + 10
    } else {
        c as u32 - 'A' as u32 + 10
    }
}

/// The character that the two digits after a `%` stand for.
pub open spec fn decoded_char(high: char, low: char) -> char {
    ((16 * hex_value(high) + hex_value(low)) as u8) as char
}

/// `path` begins with a `%` and two digits of base 16.
pub open spec fn begins_encoded(path: Seq<char>) -> bool {
    path.len() >= 3 && path[0] == '%' && is_hex(path[1]) && is_hex(path[2])
}

/// The path with every `%` that two digits of base 16 follow, and those
/// digits, replaced by the character they stand for. Any other `%` stands
/// for itself.
pub open spec fn percent_decoded(path: Seq<char>) -> Seq<char>
    decreases path.len(),
{
    if path.len() == 0 {
        Seq::empty()
    } else if begins_encoded(path) {
        seq![decoded_char(path[1], path[2])] + percent_decoded(path.skip(3))
    } else {
        seq![path[0]] + percent_decoded(path.skip(1))
    }
}

/// The number that `c` stands for as a digit of base 16, if it is one.
fn hex_digit_value(c: char) -> (value: Option<u8>)
    ensures
        value is Some <==> is_hex(c),
        value matches Some(v) ==> v == hex_value(c),
{
    let code: u32 = c as u32;
    if '0' <= c && c <= '9' {
        Some((code - '0' as u32) as u8)
    } else if 'a' <= c && c <= 'f' {
        Some((code - 'a' as u32 + 10) as u8)
    } else if 'A' <= c && c <= 'F' {
        Some((code - 'A' as u32 + 10) as u8)
    } else {
        None
    }
}

/// Decodes the percent-encoded characters of a path.
fn decode_chars(chars: &Vec<char>) -> (decoded: Vec<char>)
    ensures
        decoded@ == percent_decoded(chars@),
{
    let mut decoded: Vec<char> = Vec::new();
    let mut i: usize = 0;
    assert(chars@.skip(0) == chars@);
    while i < chars.len()
        invariant
            i <= chars.len(),
            percent_decoded(chars@) == decoded@ + percent_decoded(chars@.skip(i as int)),
        decreases chars.len() - i,
    {
        let ghost rest = chars@.skip(i as int);
        let mut step: usize = 1;
        let mut c = chars[i];
        if c == '%' && chars.len() - i >= 3 {
            match (hex_digit_value(chars[i + 1]), hex_digit_value(chars[i + 2])) {
                (Some(high), Some(low)) => {
                    c = (16 * high + low) as char;
                    step = 3;
                },
                _ => {},
            }
        }
        proof {
            assert(rest[0] == chars@[i as int]);
            assert(rest.len() >= 3 ==> rest[1] == chars@[i + 1] && rest[2] == chars@[i + 2]);
            assert(rest.skip(step as int) == chars@.skip(i + step));
            assert(percent_decoded(rest) == seq![c] + percent_decoded(rest.skip(step as int)));
            assert(decoded@.push(c) + percent_decoded(rest.skip(step as int)) == decoded@ + (seq![c]
                + percent_decoded(rest.skip(step as int))));
        }
        decoded.push(c);
        i += step;
    }
    assert(decoded@ + Seq::<char>::empty() == decoded@);
    decoded
}

/// Decodes the percent-encoded characters of a path.
pub fn percent_decode(path: &str) -> (decoded: String)
    ensures
        decoded@ == percent_decoded(path@),
{
    let chars = chars_of(path);
    let decoded = decode_chars(&chars);
    text_from(&decoded, 0)
}

/// Whether one of the segments of `path`, once decoded, is `..`.
pub fn find_parent_segment(path: &str) -> (found: bool)
    ensures
        found == has_parent_segment(percent_decoded(path@)),
{
    let raw = chars_of(path);
    let chars = decode_chars(&raw);
    let mut i: usize = 0;
    while i < chars.len()
        invariant
            chars@ == percent_decoded(path@),
            i <= chars.len(),
            forall|at: int| 0 <= at < i ==> !parent_segment_at(chars@, at),
        decreases chars.len() - i,
    {
        let opens = i == 0 || chars[i - 1] == '/';
        if opens && chars.len() - i >= 2 && chars[i] == '.' && chars[i + 1] == '.' && (chars.len()
            - i == 2 || chars[i + 2] == '/') {
            assert(parent_segment_at(chars@, i as int));
            return true;
        }
        i += 1;
    }
    false
}

/// The media type of the file with this path, by its extension: known for
/// `.css`, `.js` and `.png`.
pub open spec fn file_type_of(path: Seq<char>) -> Option<ContentType> {
    if ends_with(path, ".css"@) {
        Some(ContentType::Css)
    } else if ends_with(path, ".js"@) {
        Some(ContentType::JavaScript)
    } else if ends_with(path, ".png"@) {
        Some(ContentType::Png)
    } else {
        None
    }
}

/// Whether `chars` ends with the text `literal`.
fn ends_in(chars: &Vec<char>, literal: &str) -> (found: bool)
    ensures
        found == ends_with(chars@, literal@),
{
    let other = chars_of(literal);
    if other.len() > chars.len() {
        return false;
    }
    holds_at(chars, &other, chars.len() - other.len())
}

/// Infers the media type of the file with this path, once decoded, from its
/// extension.
pub fn file_type(path: &str) -> (found: Option<ContentType>)
    ensures
        found == file_type_of(percent_decoded(path@)),
{
    let raw = chars_of(path);
    let chars = decode_chars(&raw);
    if ends_in(&chars, ".css") {
        Some(ContentType::Css)
    } else if ends_in(&chars, ".js") {
        Some(ContentType::JavaScript)
    } else if ends_in(&chars, ".png") {
        Some(ContentType::Png)
    } else {
        None
    }
}

/// A path without a `%` is its own decoded form.
pub proof fn lemma_decoded_without_percent(path: Seq<char>)
    requires
        forall|i: int| 0 <= i < path.len() ==> path[i] != '%',
    ensures
        percent_decoded(path) == path,
    decreases path.len(),
{
    if path.len() > 0 {
        lemma_decoded_without_percent(path.skip(1));
        assert(seq![path[0]] + path.skip(1) == path);
    }
}

/// The media type that is sent with what the file service answered: the one
/// that the extension gives, where the answer is a success; else none, and
/// the file service's own stays.
pub fn served_type(status: u16, known: Option<ContentType>) -> (sent: Option<ContentType>)
    ensures
        sent == (if 200 <= status < 300 {
            known
        } else {
            None
        }),
{
    if 200 <= status && status < 300 {
        known
    } else {
        None
    }
}

} // verus!
