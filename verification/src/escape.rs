//! HTML escaping of text that is interpolated into markup.
//!
//! The five characters that can open or close markup, an entity or a quoted
//! attribute value are written as entities; every other character stands for
//! itself. Four of the five are escaped by `maud`; the apostrophe, which
//! `maud` leaves alone, is escaped here in a second pass.

use vstd::prelude::*;
use vstd::string::StringExecFns;
use crate::text::{
    expand, lemma_expand_all, lemma_expand_concat, lemma_expand_push, lemma_occurs_at_extend,
    occurs_at,
};

verus! {

/// What `maud` writes for one character.
pub open spec fn markup_char(c: char) -> Seq<char> {
    if c == '&' {
        seq!['&', 'a', 'm', 'p', ';']
    } else if c == '<' {
        seq!['&', 'l', 't', ';']
    } else if c == '>' {
        seq!['&', 'g', 't', ';']
    } else if c == '"' {
        seq!['&', 'q', 'u', 'o', 't', ';']
    } else {
        seq![c]
    }
}

/// What the second pass writes for one character.
pub open spec fn apostrophe_char(c: char) -> Seq<char> {
    if c == '\'' {
        seq!['&', '#', '3', '9', ';']
    } else {
        seq![c]
    }
}

/// What one character of a text becomes in markup.
pub open spec fn escaped_char(c: char) -> Seq<char> {
    if c == '\'' {
        seq!['&', '#', '3', '9', ';']
    } else {
        markup_char(c)
    }
}

/// `markup_char`, as a value.
pub open spec fn markup_chars() -> spec_fn(char) -> Seq<char> {
    |c: char| markup_char(c)
}

/// `apostrophe_char`, as a value.
pub open spec fn apostrophe_chars() -> spec_fn(char) -> Seq<char> {
    |c: char| apostrophe_char(c)
}

/// `escaped_char`, as a value.
pub open spec fn escaped_chars() -> spec_fn(char) -> Seq<char> {
    |c: char| escaped_char(c)
}

/// The escaped form of a text: the escaped forms of its characters, in order.
pub open spec fn escaped(text: Seq<char>) -> Seq<char> {
    expand(escaped_chars(), text)
}

/// `maud::Render::render_to` for a `str`, on an empty buffer. It walks the
/// bytes of the text and appends `&amp;`, `&lt;`, `&gt;` and `&quot;` for
/// `&`, `<`, `>` and `"`, and every other byte as it is. The four are single
/// bytes that occur in no longer character, so the contract says the same
/// of characters: the result is the text with `markup_char` of each
/// character in its place.
#[verifier::external_body]
fn render_markup(text: &str) -> (out: String)
    ensures
        out@ == expand(markup_chars(), text@),
{
    let mut out = String::new();
    maud::Render::render_to(text, &mut out);
    out
}

/// Writes every apostrophe of `text` as `&#39;`.
fn escape_apostrophes(text: &str) -> (out: String)
    ensures
        out@ == expand(apostrophe_chars(), text@),
{
    let mut out = String::new();
    for c in it: text.chars()
        invariant
            it.seq() == text@,
            out@ == expand(apostrophe_chars(), text@.take(it.index() as int)),
    {
        proof {
            let i = it.index() as int;
            assert(text@.take(i + 1) == text@.take(i).push(c));
            lemma_expand_push(apostrophe_chars(), text@.take(i), c);
        }
        if c == '\'' {
            proof {
                reveal_strlit("&#39;");
                assert("&#39;"@ =~= apostrophe_char(c));
            }
            out.append("&#39;");
        } else {
            assert(seq![c] =~= Seq::empty().push(c));
            out.push(c);
        }
    }
    proof {
        assert(text@.take(text@.len() as int) == text@);
    }
    out
}

/// Escaping apostrophes in what `maud` wrote for one character gives the
/// escaped form of that character.
proof fn lemma_second_pass_char(c: char)
    ensures
        expand(apostrophe_chars(), markup_char(c)) == escaped_char(c),
{
    let each = apostrophe_chars();
    let m = markup_char(c);
    if c == '&' || c == '<' || c == '>' || c == '"' {
        lemma_without_apostrophe(m);
    } else {
        assert(m.drop_last() == Seq::<char>::empty());
        assert(expand(each, Seq::<char>::empty()) == Seq::<char>::empty());
        assert(expand(each, m) == Seq::<char>::empty() + each(c));
        assert(Seq::<char>::empty() + each(c) == each(c));
    }
}

/// A text without an apostrophe is left as it is by the second pass.
proof fn lemma_without_apostrophe(text: Seq<char>)
    requires
        forall|i: int| 0 <= i < text.len() ==> text[i] != '\'',
    ensures
        expand(apostrophe_chars(), text) == text,
    decreases text.len(),
{
    if text.len() > 0 {
        lemma_without_apostrophe(text.drop_last());
        assert(apostrophe_char(text.last()) == seq![text.last()]);
        assert(text.drop_last() + seq![text.last()] =~= text);
    }
}

/// Escaping with `maud` and then escaping apostrophes is escaping all five
/// characters at once.
pub proof fn lemma_two_passes(text: Seq<char>)
    ensures
        expand(apostrophe_chars(), expand(markup_chars(), text)) == escaped(text),
    decreases text.len(),
{
    if text.len() > 0 {
        let front = text.drop_last();
        lemma_two_passes(front);
        lemma_expand_concat(
            apostrophe_chars(),
            expand(markup_chars(), front),
            markup_char(text.last()),
        );
        lemma_second_pass_char(text.last());
    }
}

/// Escapes `text` for interpolation into markup.
pub fn html_escape(text: &str) -> (out: String)
    ensures
        out@ == escaped(text@),
{
    let rendered = render_markup(text);
    let out = escape_apostrophes(rendered.as_str());
    proof {
        lemma_two_passes(text@);
    }
    out
}

/// One of the five characters that are written as entities.
pub open spec fn is_special(c: char) -> bool {
    c == '&' || c == '<' || c == '>' || c == '"' || c == '\''
}

/// One of the four characters that never stand in an escaped text.
pub open spec fn is_delimiter(c: char) -> bool {
    c == '<' || c == '>' || c == '"' || c == '\''
}

/// `not is_delimiter`, as a value.
pub open spec fn no_delimiter() -> spec_fn(char) -> bool {
    |c: char| !is_delimiter(c)
}

/// An entity stands in `hay` at position `at`.
pub open spec fn entity_at(hay: Seq<char>, at: int) -> bool {
    exists|c: char| is_special(c) && occurs_at(hay, #[trigger] escaped_char(c), at)
}

/// No `<`, `>`, `"` or `'` stands in an escaped text, whatever the text was.
pub proof fn lemma_escaped_has_no_delimiter(text: Seq<char>)
    ensures
        forall|i: int| 0 <= i < escaped(text).len() ==> !is_delimiter(#[trigger] escaped(text)[i]),
{
    lemma_expand_all(escaped_chars(), no_delimiter(), text);
    assert forall|i: int| 0 <= i < escaped(text).len() implies !is_delimiter(
        #[trigger] escaped(text)[i],
    ) by {
        assert(no_delimiter()(escaped(text)[i]));
    }
}

/// Every `&` of an escaped text is the first character of an entity.
pub proof fn lemma_ampersand_opens_entity(text: Seq<char>, i: int)
    requires
        0 <= i < escaped(text).len(),
        escaped(text)[i] == '&',
    ensures
        entity_at(escaped(text), i),
    decreases text.len(),
{
    let front = escaped(text.drop_last());
    let back = escaped_char(text.last());
    assert(escaped(text) == front + back);
    if i < front.len() {
        assert(front[i] == '&');
        lemma_ampersand_opens_entity(text.drop_last(), i);
        let c = choose|c: char| is_special(c) && occurs_at(front, #[trigger] escaped_char(c), i);
        lemma_occurs_at_extend(front, back, escaped_char(c), i);
    } else {
        let k = i - front.len();
        assert(back[k] == '&');
        assert(is_special(text.last()) && k == 0);
        assert((front + back).subrange(i, i + back.len()) =~= back);
        assert(occurs_at(escaped(text), escaped_char(text.last()), i));
    }
}

/// A text without special characters is its own escaped form.
pub proof fn lemma_plain_text_unchanged(text: Seq<char>)
    requires
        forall|i: int| 0 <= i < text.len() ==> !is_special(#[trigger] text[i]),
    ensures
        escaped(text) == text,
    decreases text.len(),
{
    if text.len() > 0 {
        lemma_plain_text_unchanged(text.drop_last());
        assert(!is_special(text[text.len() - 1]));
        assert(text.drop_last() + seq![text.last()] =~= text);
    }
}

} // verus!
