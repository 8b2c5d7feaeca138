//! The rule that tells whether a request declares its body as JSON.

use vstd::prelude::*;
use crate::text::chars_of;

verus! {

/// The media type that the POST endpoints accept.
pub open spec fn json_type() -> Seq<char> {
    "application/json"@
}

/// A space or a tab.
pub open spec fn is_blank(c: char) -> bool {
    c == ' ' || c == '\t'
}

/// `c` is the lower-case character `expected`, or the capital letter of it.
pub open spec fn is_letter(c: char, expected: char) -> bool {
    c == expected || ('a' <= expected <= 'z' && c as u32 + 32 == expected as u32)
}

/// `rest` is what may follow a media type: nothing, or blanks and then
/// parameters, which a `;` opens.
pub open spec fn is_parameters(rest: Seq<char>) -> bool
    decreases rest.len(),
{
    rest.len() == 0 || rest[0] == ';' || (is_blank(rest[0]) && is_parameters(rest.drop_first()))
}

/// The value of a `Content-Type` header declares a JSON body: it is
/// `application/json`, in letters of either case, with or without parameters.
pub open spec fn declares_json(value: Seq<char>) -> bool {
    &&& value.len() >= json_type().len()
    &&& forall|i: int| 0 <= i < json_type().len() ==> is_letter(#[trigger] value[i], json_type()[i])
    &&& is_parameters(value.skip(json_type().len() as int))
}

/// Whether what stands in `chars` from position `from` on may follow a media
/// type.
fn parameters_follow(chars: &Vec<char>, from: usize) -> (follow: bool)
    requires
        from <= chars.len(),
    ensures
        follow == is_parameters(chars@.skip(from as int)),
{
    let mut i: usize = from;
    while i < chars.len()
        invariant
            from <= i <= chars.len(),
            is_parameters(chars@.skip(from as int)) == is_parameters(chars@.skip(i as int)),
        decreases chars.len() - i,
    {
        let c = chars[i];
        proof {
            let rest = chars@.skip(i as int);
            assert(rest[0] == c);
            assert(rest.drop_first() == chars@.skip(i + 1));
        }
        if c == ';' {
            return true;
        }
        if c != ' ' && c != '\t' {
            return false;
        }
        i += 1;
    }
    proof {
        assert(chars@.skip(i as int).len() == 0);
    }
    true
}

/// Whether `c` is the lower-case character `expected` or its capital letter.
fn letter_matches(c: char, expected: char) -> (same: bool)
    ensures
        same == is_letter(c, expected),
{
    c == expected || ('a' <= expected && expected <= 'z' && c as u32 + 32 == expected as u32)
}

/// Whether the value of a `Content-Type` header declares a JSON body.
pub fn is_json(value: &str) -> (json: bool)
    ensures
        json == declares_json(value@),
{
    let chars = chars_of(value);
    let expected = chars_of("application/json");
    if chars.len() < expected.len() {
        return false;
    }
    let mut i: usize = 0;
    while i < expected.len()
        invariant
            chars@ == value@,
            expected@ == json_type(),
            expected.len() <= chars.len(),
            i <= expected.len(),
            forall|k: int| 0 <= k < i ==> is_letter(#[trigger] chars@[k], json_type()[k]),
        decreases expected.len() - i,
    {
        if !letter_matches(chars[i], expected[i]) {
            assert(!is_letter(value@[i as int], json_type()[i as int]));
            return false;
        }
        i += 1;
    }
    parameters_follow(&chars, expected.len())
}

} // verus!
