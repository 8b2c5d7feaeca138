//! Sequences of characters: expansion character by character, and occurrence
//! of one text inside another. The contracts of the other modules are stated
//! over these.

use vstd::prelude::*;

verus! {

/// The text obtained from `text` by putting `each(c)` in the place of every
/// character `c`, in order.
pub open spec fn expand(each: spec_fn(char) -> Seq<char>, text: Seq<char>) -> Seq<char>
    decreases text.len(),
{
    if text.len() == 0 {
        Seq::empty()
    } else {
        expand(each, text.drop_last()) + each(text.last())
    }
}

/// `needle` stands in `hay` at position `at`.
pub open spec fn occurs_at(hay: Seq<char>, needle: Seq<char>, at: int) -> bool {
    &&& 0 <= at
    &&& at + needle.len() <= hay.len()
    &&& hay.subrange(at, at + needle.len()) == needle
}

/// `needle` stands somewhere in `hay`.
pub open spec fn occurs_in(hay: Seq<char>, needle: Seq<char>) -> bool {
    exists|at: int| occurs_at(hay, needle, at)
}

/// `hay` begins with `needle`.
pub open spec fn starts_with(hay: Seq<char>, needle: Seq<char>) -> bool {
    occurs_at(hay, needle, 0)
}

/// `hay` ends with `needle`.
pub open spec fn ends_with(hay: Seq<char>, needle: Seq<char>) -> bool {
    occurs_at(hay, needle, hay.len() - needle.len())
}

/// Expanding a text that ends in `c` expands what stands before it and then `c`.
pub proof fn lemma_expand_push(each: spec_fn(char) -> Seq<char>, text: Seq<char>, c: char)
    ensures
        expand(each, text.push(c)) == expand(each, text) + each(c),
{
    assert(text.push(c).drop_last() == text);
}

/// Expansion distributes over concatenation.
pub proof fn lemma_expand_concat(each: spec_fn(char) -> Seq<char>, a: Seq<char>, b: Seq<char>)
    ensures
        expand(each, a + b) == expand(each, a) + expand(each, b),
    decreases b.len(),
{
    if b.len() == 0 {
        assert(a + b == a);
    } else {
        lemma_expand_concat(each, a, b.drop_last());
        assert((a + b).drop_last() == a + b.drop_last());
        assert((a + b).last() == b.last());
    }
}

/// A property that holds of every character that `each` produces holds of
/// every character of an expansion.
pub proof fn lemma_expand_all(
    each: spec_fn(char) -> Seq<char>,
    holds: spec_fn(char) -> bool,
    text: Seq<char>,
)
    requires
        forall|c: char, k: int| 0 <= k < each(c).len() ==> holds(#[trigger] each(c)[k]),
    ensures
        forall|i: int| 0 <= i < expand(each, text).len() ==> holds(#[trigger] expand(each, text)[i]),
    decreases text.len(),
{
    if text.len() > 0 {
        lemma_expand_all(each, holds, text.drop_last());
        let front = expand(each, text.drop_last());
        let back = each(text.last());
        assert forall|i: int| 0 <= i < expand(each, text).len() implies holds(
            #[trigger] expand(each, text)[i],
        ) by {
            if i < front.len() {
                assert(expand(each, text)[i] == front[i]);
            } else {
                assert(expand(each, text)[i] == back[i - front.len()]);
            }
        }
    }
}

/// What stands in a text still stands there, at the same place, when more
/// text follows.
pub proof fn lemma_occurs_at_extend(hay: Seq<char>, more: Seq<char>, needle: Seq<char>, at: int)
    requires
        occurs_at(hay, needle, at),
    ensures
        occurs_at(hay + more, needle, at),
{
    assert((hay + more).subrange(at, at + needle.len()) =~= hay.subrange(at, at + needle.len()));
}

/// What stands in a text still stands there, moved by the length of what is
/// put in front.
pub proof fn lemma_occurs_at_shift(front: Seq<char>, hay: Seq<char>, needle: Seq<char>, at: int)
    requires
        occurs_at(hay, needle, at),
    ensures
        occurs_at(front + hay, needle, front.len() + at),
{
    assert((front + hay).subrange(front.len() + at, front.len() + at + needle.len())
        =~= hay.subrange(at, at + needle.len()));
}

/// The middle of three concatenated texts stands in the whole.
pub proof fn lemma_occurs_in_middle(front: Seq<char>, middle: Seq<char>, back: Seq<char>)
    ensures
        occurs_at(front + middle + back, middle, front.len() as int),
        occurs_in(front + middle + back, middle),
{
    let from = front.len() as int;
    assert((front + middle + back).subrange(from, from + middle.len()) =~= middle);
}

/// `each` never writes the empty text, and what it writes for one character
/// never begins with what it writes for another: two texts that begin with
/// what it writes for `c` and for `d` are equal only if `c` is `d`.
pub open spec fn is_prefix_code(each: spec_fn(char) -> Seq<char>) -> bool {
    &&& forall|c: char| #[trigger] each(c).len() > 0
    &&& forall|c: char, d: char, x: Seq<char>, y: Seq<char>|
        #![trigger each(c) + x, each(d) + y]
        each(c) + x == each(d) + y ==> c == d
}

/// Expanding a text expands its first character and then the rest.
pub proof fn lemma_expand_first(each: spec_fn(char) -> Seq<char>, text: Seq<char>)
    requires
        text.len() > 0,
    ensures
        expand(each, text) == each(text[0]) + expand(each, text.drop_first()),
{
    let first = seq![text[0]];
    assert(first.drop_last() == Seq::<char>::empty());
    assert(expand(each, first.drop_last()) == Seq::<char>::empty());
    assert(expand(each, first) == Seq::<char>::empty() + each(text[0]));
    assert(Seq::<char>::empty() + each(text[0]) == each(text[0]));
    assert(first + text.drop_first() == text);
    lemma_expand_concat(each, first, text.drop_first());
}

/// The expansion by a prefix code determines the text: two texts with the
/// same expansion are the same text.
pub proof fn lemma_expand_injective(each: spec_fn(char) -> Seq<char>, a: Seq<char>, b: Seq<char>)
    requires
        is_prefix_code(each),
        expand(each, a) == expand(each, b),
    ensures
        a == b,
    decreases a.len(),
{
    if a.len() == 0 {
        if b.len() > 0 {
            assert(each(b.last()).len() > 0);
            assert(expand(each, b).len() > 0);
        }
        assert(a =~= b);
    } else {
        if b.len() == 0 {
            assert(each(a.last()).len() > 0);
            assert(expand(each, a).len() > 0);
        }
        lemma_expand_first(each, a);
        lemma_expand_first(each, b);
        let x = expand(each, a.drop_first());
        let y = expand(each, b.drop_first());
        assert(each(a[0]) + x == each(b[0]) + y);
        assert(a[0] == b[0]);
        let p = each(a[0]);
        assert(x =~= (p + x).skip(p.len() as int));
        assert(y =~= (p + y).skip(p.len() as int));
        lemma_expand_injective(each, a.drop_first(), b.drop_first());
        assert(a =~= seq![a[0]] + a.drop_first());
        assert(b =~= seq![b[0]] + b.drop_first());
    }
}

/// `String::push`: appends one character. The contract says that the text
/// is then what it was before with `c` at its end.
pub assume_specification[ String::push ](s: &mut String, c: char)
    ensures
        final(s)@ == old(s)@.push(c),
;

/// The characters of a text.
pub fn chars_of(text: &str) -> (chars: Vec<char>)
    ensures
        chars@ == text@,
{
    let mut chars: Vec<char> = Vec::new();
    for c in it: text.chars()
        invariant
            it.seq() == text@,
            chars@ == text@.take(it.index() as int),
    {
        proof {
            let i = it.index() as int;
            assert(text@.take(i + 1) == text@.take(i).push(c));
        }
        chars.push(c);
    }
    proof {
        assert(text@.take(text@.len() as int) == text@);
    }
    chars
}

/// The text made of the characters from position `from` on; the empty text
/// where `from` is past the end.
pub fn text_from(chars: &Vec<char>, from: usize) -> (text: String)
    ensures
        from <= chars.len() ==> text@ == chars@.skip(from as int),
        from > chars.len() ==> text@ == Seq::<char>::empty(),
{
    let mut text = String::new();
    if from > chars.len() {
        return text;
    }
    let mut i: usize = from;
    while i < chars.len()
        invariant
            from <= i <= chars.len(),
            text@ == chars@.subrange(from as int, i as int),
        decreases chars.len() - i,
    {
        text.push(chars[i]);
        i += 1;
    }
    assert(chars@.subrange(from as int, chars.len() as int) == chars@.skip(from as int));
    text
}

/// Whether `chars` holds `needle` at position `at`.
pub fn holds_at(chars: &Vec<char>, needle: &Vec<char>, at: usize) -> (found: bool)
    ensures
        found == occurs_at(chars@, needle@, at as int),
{
    if at > chars.len() || needle.len() > chars.len() - at {
        return false;
    }
    let mut i: usize = 0;
    while i < needle.len()
        invariant
            at + needle.len() <= chars.len(),
            i <= needle.len(),
            forall|k: int| 0 <= k < i ==> chars@[at + k] == needle@[k],
        decreases needle.len() - i,
    {
        if chars[at + i] != needle[i] {
            proof {
                let part = chars@.subrange(at as int, at + needle.len());
                assert(part[i as int] == chars@[at + i]);
            }
            return false;
        }
        i += 1;
    }
    assert(chars@.subrange(at as int, at + needle.len()) =~= needle@);
    true
}

/// Whether `chars` is exactly the text `literal`.
pub fn is_text(chars: &Vec<char>, literal: &str) -> (same: bool)
    ensures
        same == (chars@ == literal@),
{
    let other = chars_of(literal);
    if chars.len() != other.len() {
        return false;
    }
    let same = holds_at(chars, &other, 0);
    proof {
        assert(chars@.subrange(0, chars@.len() as int) == chars@);
    }
    same
}

/// Whether `chars` begins with the text `literal`.
pub fn begins_with(chars: &Vec<char>, literal: &str) -> (found: bool)
    ensures
        found == starts_with(chars@, literal@),
{
    let other = chars_of(literal);
    holds_at(chars, &other, 0)
}

} // verus!
