//! The form payload, the one value that crosses the wire: a JSON object with
//! a string under the key `name`.

use vstd::prelude::*;
use vstd::string::StringExecFns;
use crate::response::BadRequest;
use crate::text::{chars_of, expand, is_prefix_code, is_text, lemma_expand_injective};

verus! {

/// What a form submits.
#[derive(Clone, Debug, PartialEq, Eq)]
pub struct FormPayload {
    pub name: String,
}

impl View for FormPayload {
    type V = Seq<char>;

    /// A payload is its name.
    open spec fn view(&self) -> Seq<char> {
        self.name@
    }
}

/// The digit that stands for `n` in base 16, in lower case.
pub open spec fn hex_digit(n: int) -> char {
    "0123456789abcdef"@[n]
}

/// What one character of a string becomes inside a JSON string literal: the
/// quotation mark, the backslash and the control characters are escaped,
/// every other character stands for itself.
pub open spec fn json_char(c: char) -> Seq<char> {
    if c == '"' {
        seq!['\\', '"']
    } else if c == '\\' {
        seq!['\\', '\\']
    } else if c == '\u{8}' {
        seq!['\\', 'b']
    } else if c == '\t' {
        seq!['\\', 't']
    } else if c == '\n' {
        seq!['\\', 'n']
    } else if c == '\u{c}' {
        seq!['\\', 'f']
    } else if c == '\r' {
        seq!['\\', 'r']
    } else if (c as u32) < 0x20 {
        seq!['\\', 'u', '0', '0', hex_digit((c as u32) as int / 16), hex_digit((c as u32) as int % 16)]
    } else {
        seq![c]
    }
}

/// `json_char`, as a value.
pub open spec fn json_chars() -> spec_fn(char) -> Seq<char> {
    |c: char| json_char(c)
}

/// The JSON string literal for a text.
pub open spec fn json_string(text: Seq<char>) -> Seq<char> {
    seq!['"'] + expand(json_chars(), text) + seq!['"']
}

/// The canonical JSON document for a payload with the given name.
pub open spec fn payload_document(name: Seq<char>) -> Seq<char> {
    "{\"name\":"@ + json_string(name) + "}"@
}

/// `serde_json::to_string` for a `str`: writes the text as a JSON string
/// literal. Between two quotation marks it writes `\"` and `\\` for the
/// quotation mark and the backslash, `\b`, `\t`, `\n`, `\f` and `\r` for the
/// five control characters that have a short form, `\u00` and two digits of
/// base 16 in lower case for every other character below U+0020, and every
/// other character as it is. Writing a `str` to memory has no error to
/// report, so the contract speaks of the text alone.
#[verifier::external_body]
fn write_string(text: &str) -> (out: String)
    ensures
        out@ == json_string(text@),
{
    match serde_json::to_string(text) {
        Ok(out) => out,
        Err(_) => String::new(),
    }
}

/// Writes a payload with the given name as its canonical JSON document.
pub fn encode_payload(name: &str) -> (document: String)
    ensures
        document@ == payload_document(name@),
{
    let mut document = String::from_str("{\"name\":");
    let literal = write_string(name);
    document.append(literal.as_str());
    document.append("}");
    document
}

/// One member of a JSON object: its key and, where its value is a string,
/// that string.
pub type Member = (String, Option<String>);

/// What was read in a request body.
#[derive(Clone, Debug, PartialEq, Eq)]
pub enum Document {
    /// The body is not one JSON document.
    Malformed,
    /// The body is a JSON document, but no object.
    NotObject,
    /// The body is a JSON object with these members.
    Object(Vec<Member>),
}

impl View for Document {
    type V = Option<Option<Seq<(Seq<char>, Option<Seq<char>>)>>>;

    /// `None` for a malformed body, `Some(None)` for a document that is no
    /// object, else the members.
    open spec fn view(&self) -> Self::V {
        match self {
            Document::Malformed => None,
            Document::NotObject => Some(None),
            Document::Object(members) => Some(Some(members.deep_view())),
        }
    }
}

/// What `serde_json` reads in a body: `None` where the body is not one JSON
/// document; `Some(None)` where the document is no object; else the members
/// of the object, each with its key and, where its value is a string, that
/// string.
pub uninterp spec fn json_members(body: Seq<u8>) -> Option<
    Option<Seq<(Seq<char>, Option<Seq<char>>)>>,
>;

/// `serde_json::from_slice` to a `serde_json::Value`: parses the whole body
/// as one JSON document. The result is `Malformed` where the parser reports
/// an error and `NotObject` where the value is no object; of an object it
/// holds the members, each with its key and, where its value is a string,
/// that string. The contract gives the result a name and says nothing more
/// of it.
#[verifier::external_body]
fn read_document(body: &[u8]) -> (found: Document)
    ensures
        found@ == json_members(body@),
{
    match serde_json::from_slice::<serde_json::Value>(body) {
        Ok(serde_json::Value::Object(members)) => Document::Object(
            members
                .into_iter()
                .map(|(key, value)| match value {
                    serde_json::Value::String(text) => (key, Some(text)),
                    _ => (key, None),
                })
                .collect(),
        ),
        Ok(_) => Document::NotObject,
        Err(_) => Document::Malformed,
    }
}

/// The key of the payload's one member.
pub open spec fn name_key() -> Seq<char> {
    "name"@
}

/// The string that the first member with the key `name` holds, if there is
/// such a member and it holds one.
pub open spec fn name_of(members: Seq<(Seq<char>, Option<Seq<char>>)>) -> Option<Seq<char>>
    decreases members.len(),
{
    if members.len() == 0 {
        None
    } else if members[0].0 == name_key() {
        members[0].1
    } else {
        name_of(members.drop_first())
    }
}

/// The payload that a body holds, given what was read in it: the name is
/// the string that an object holds under `name`; members under other keys
/// are ignored.
pub open spec fn payload_of(
    document: Option<Option<Seq<(Seq<char>, Option<Seq<char>>)>>>,
) -> Result<Seq<char>, BadRequest> {
    match document {
        None => Err(BadRequest::MalformedJson),
        Some(None) => Err(BadRequest::MissingName),
        Some(Some(members)) => match name_of(members) {
            None => Err(BadRequest::MissingName),
            Some(name) => Ok(name),
        },
    }
}

/// A decoded payload, as its name.
pub open spec fn decoded_view(decoded: Result<FormPayload, BadRequest>) -> Result<
    Seq<char>,
    BadRequest,
> {
    match decoded {
        Ok(payload) => Ok(payload@),
        Err(why) => Err(why),
    }
}

/// Finds the string under `name` among the members of a document.
fn find_name(members: &Vec<Member>) -> (found: Option<String>)
    ensures
        found.deep_view() == name_of(members.deep_view()),
{
    let mut i: usize = 0;
    assert(members.deep_view().skip(0) == members.deep_view());
    while i < members.len()
        invariant
            i <= members.len(),
            name_of(members.deep_view()) == name_of(members.deep_view().skip(i as int)),
        decreases members.len() - i,
    {
        proof {
            let rest = members.deep_view().skip(i as int);
            assert(rest[0] == members@[i as int].deep_view());
            assert(rest.drop_first() == members.deep_view().skip(i + 1));
        }
        let key = chars_of(members[i].0.as_str());
        if is_text(&key, "name") {
            return match &members[i].1 {
                Some(text) => Some(text.clone()),
                None => None,
            };
        }
        i += 1;
    }
    None
}

/// Makes the payload from what was read in a body: the string that an
/// object holds under `name` is the name. An object without one and a
/// document that is no object are rejected for the missing name, a malformed
/// body for that.
pub fn payload_from(found: Document) -> (decoded: Result<FormPayload, BadRequest>)
    ensures
        decoded_view(decoded) == payload_of(found@),
{
    match found {
        Document::Malformed => Err(BadRequest::MalformedJson),
        Document::NotObject => Err(BadRequest::MissingName),
        Document::Object(members) => match find_name(&members) {
            None => Err(BadRequest::MissingName),
            Some(name) => Ok(FormPayload { name }),
        },
    }
}

/// Reads the payload from a request body.
pub fn decode_payload(body: &[u8]) -> (decoded: Result<FormPayload, BadRequest>)
    ensures
        decoded_view(decoded) == payload_of(json_members(body@)),
{
    payload_from(read_document(body))
}

/// What is written for one character inside a JSON string literal begins
/// with a backslash exactly if the character is escaped.
proof fn lemma_json_char_shape(c: char)
    ensures
        json_char(c).len() > 0,
        json_char(c)[0] == '\\' ==> json_char(c).len() >= 2,
        json_char(c)[0] != '\\' ==> json_char(c) == seq![c],
        json_char(c)[0] == '\\' && json_char(c)[1] == 'u' ==> json_char(c).len() == 6 && (c as u32)
            < 0x20,
{
    reveal_strlit("0123456789abcdef");
}

/// The characters of a JSON string literal form a prefix code.
pub proof fn lemma_json_chars_prefix_code()
    ensures
        is_prefix_code(json_chars()),
{
    let each = json_chars();
    assert forall|c: char| #[trigger] each(c).len() > 0 by {
        lemma_json_char_shape(c);
    }
    assert forall|c: char, d: char, x: Seq<char>, y: Seq<char>|
        #![trigger each(c) + x, each(d) + y]
        each(c) + x == each(d) + y implies c == d by {
        lemma_json_char_differs(c, d, x, y);
    }
}

/// Two texts that begin with what is written for `c` and for `d` inside a
/// JSON string literal are equal only if `c` is `d`.
proof fn lemma_json_char_differs(c: char, d: char, x: Seq<char>, y: Seq<char>)
    requires
        json_char(c) + x == json_char(d) + y,
    ensures
        c == d,
{
    reveal_strlit("0123456789abcdef");
    lemma_json_char_shape(c);
    lemma_json_char_shape(d);
    let s = json_char(c) + x;
    let t = json_char(d) + y;
    assert(s[0] == json_char(c)[0]);
    assert(t[0] == json_char(d)[0]);
    if json_char(c)[0] == '\\' {
        assert(s[1] == json_char(c)[1]);
        assert(t[1] == json_char(d)[1]);
        if json_char(c)[1] == 'u' {
            assert(s[4] == json_char(c)[4] && s[5] == json_char(c)[5]);
            assert(t[4] == json_char(d)[4] && t[5] == json_char(d)[5]);
            let m = (c as u32) as int;
            let n = (d as u32) as int;
            assert(hex_digit(m / 16) == hex_digit(n / 16));
            assert(hex_digit(m % 16) == hex_digit(n % 16));
            assert(m / 16 == n / 16);
            assert(m % 16 == n % 16);
            assert(m == n);
        }
    }
}

/// The canonical document determines the name: two names with the same
/// document are the same name. So a reader that gives back some name for
/// every canonical document can only give back the one it was written from.
pub proof fn lemma_document_determines_name(a: Seq<char>, b: Seq<char>)
    requires
        payload_document(a) == payload_document(b),
    ensures
        a == b,
{
    reveal_strlit("{\"name\":");
    reveal_strlit("}");
    let head = "{\"name\":"@ + seq!['"'];
    let tail = seq!['"'] + "}"@;
    let x = expand(json_chars(), a);
    let y = expand(json_chars(), b);
    assert(payload_document(a) =~= head + x + tail);
    assert(payload_document(b) =~= head + y + tail);
    let from = head.len() as int;
    assert(x =~= (head + x + tail).subrange(from, from + x.len()));
    assert(y =~= (head + y + tail).subrange(from, from + y.len()));
    assert((head + x + tail).len() == (head + y + tail).len());
    lemma_json_chars_prefix_code();
    lemma_expand_injective(json_chars(), a, b);
}

} // verus!
