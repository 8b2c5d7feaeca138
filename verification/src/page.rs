//! The two pieces of HTML that the server sends: the index document and the
//! fragment that takes the place of its `content` element.

use vstd::prelude::*;
use vstd::string::StringExecFns;
use crate::escape::{
    entity_at, escaped, escaped_char, html_escape, is_delimiter, is_special,
    lemma_ampersand_opens_entity, lemma_escaped_has_no_delimiter,
};
use crate::text::{
    lemma_occurs_at_extend, lemma_occurs_at_shift, lemma_occurs_in_middle, occurs_at, occurs_in,
    starts_with,
};

verus! {

/// The document type declaration.
pub open spec fn doctype() -> Seq<char> {
    "<!DOCTYPE html>"@
}

/// The head: the hypermedia client library, its JSON-encoding extension and
/// the stylesheet, each by its URL.
pub open spec fn head() -> Seq<char> {
    "<head>"@ + "<script src=\"static/js/htmx.v1.9.8.min.js\"></script>"@
        + "<script src=\"static/js/htmx.v1.9.8.json-enc.js\"></script>"@
        + "<link rel=\"stylesheet\" href=\"static/css/index.css\"></link>"@ + "</head>"@
}

/// The image.
pub open spec fn image() -> Seq<char> {
    "<img src=\"static/images/doodle.png\">"@
}

/// The element that a submitted form replaces.
pub open spec fn content() -> Seq<char> {
    "<div id=\"content\"><p>Hello world!</p></div>"@
}

/// The form: a labelled text input and the button that posts it.
///
/// The button's attributes tell the client library to post the input named
/// `name` to `/html` as a JSON body and to put the answer in the place of the
/// element `#content`.
pub open spec fn form() -> Seq<char> {
    "<div>"@ + "<label for=\"name\">Name</label>"@
        + "<input type=\"text\" id=\"name\" name=\"name\">"@
        + "<button hx-post=\"/html\" hx-include=\"[name='name']\" hx-ext=\"json-enc\" hx-target=\"#content\" hx-swap=\"outerHTML\">Submit!</button>"@
        + "</div>"@
}

/// The index document.
pub open spec fn index_document() -> Seq<char> {
    doctype() + head() + image() + content() + form()
}

/// What stands before the name in the fragment's paragraph.
pub open spec fn greeting_open() -> Seq<char> {
    "Hello "@
}

/// What stands after the name in the fragment's paragraph.
pub open spec fn greeting_close() -> Seq<char> {
    "! This is HTMX."@
}

/// The paragraph of the fragment: the greeting round the escaped name.
pub open spec fn greeting(name: Seq<char>) -> Seq<char> {
    greeting_open() + escaped(name) + greeting_close()
}

/// What stands before the paragraph's text in the fragment.
pub open spec fn fragment_open() -> Seq<char> {
    "<div id=\"content\"><p>"@
}

/// What stands after the paragraph's text in the fragment.
pub open spec fn fragment_close() -> Seq<char> {
    "</p></div>"@
}

/// The fragment for a name: one `content` element whose only child is the
/// paragraph that greets the name.
pub open spec fn fragment(name: Seq<char>) -> Seq<char> {
    fragment_open() + greeting(name) + fragment_close()
}

/// Builds the index document.
pub fn index_page() -> (page: String)
    ensures
        page@ == index_document(),
{
    let mut page = String::new();
    page.append("<!DOCTYPE html>");
    page.append("<head>");
    page.append("<script src=\"static/js/htmx.v1.9.8.min.js\"></script>");
    page.append("<script src=\"static/js/htmx.v1.9.8.json-enc.js\"></script>");
    page.append("<link rel=\"stylesheet\" href=\"static/css/index.css\"></link>");
    page.append("</head>");
    page.append("<img src=\"static/images/doodle.png\">");
    page.append("<div id=\"content\"><p>Hello world!</p></div>");
    page.append("<div>");
    page.append("<label for=\"name\">Name</label>");
    page.append("<input type=\"text\" id=\"name\" name=\"name\">");
    page.append(
        "<button hx-post=\"/html\" hx-include=\"[name='name']\" hx-ext=\"json-enc\" hx-target=\"#content\" hx-swap=\"outerHTML\">Submit!</button>",
    );
    page.append("</div>");
    page
}

/// Builds the fragment that greets `name`.
pub fn content_fragment(name: &str) -> (body: String)
    ensures
        body@ == fragment(name@),
{
    let name_escaped = html_escape(name);
    let mut body = String::new();
    body.append("<div id=\"content\"><p>");
    body.append("Hello ");
    body.append(name_escaped.as_str());
    body.append("! This is HTMX.");
    body.append("</p></div>");
    body
}

/// What stands in one part of a text stands in the whole.
proof fn lemma_part(front: Seq<char>, part: Seq<char>, back: Seq<char>, needle: Seq<char>, at: int)
    requires
        occurs_at(part, needle, at),
    ensures
        occurs_at(front + part + back, needle, front.len() + at),
        occurs_in(front + part + back, needle),
{
    lemma_occurs_at_shift(front, part, needle, at);
    lemma_occurs_at_extend(front + part, back, needle, front.len() + at);
}

/// The index document begins with the document type declaration and holds
/// the `content` element, the input with the id and the name `name`, the
/// label `Name` for the element with that id, the button that posts to
/// `/html`, and the URL of the client library.
pub proof fn lemma_index_document_contents()
    ensures
        starts_with(index_document(), "<!DOCTYPE"@),
        occurs_in(index_document(), "<label for=\"name\">Name</label>"@),
        occurs_in(index_document(), "id=\"name\""@),
        occurs_in(index_document(), "static/js/htmx.v1.9.8.min.js"@),
        occurs_in(index_document(), "id=\"content\""@),
        occurs_in(index_document(), "name=\"name\""@),
        occurs_in(index_document(), "hx-post=\"/html\""@),
        occurs_in(index_document(), "/html"@),
{
    let doc = index_document();
    assert(starts_with(doc, "<!DOCTYPE"@)) by {
        reveal_strlit("<!DOCTYPE html>");
        reveal_strlit("<!DOCTYPE");
        assert(doctype().subrange(0, 9) =~= "<!DOCTYPE"@);
        lemma_occurs_at_extend(doctype(), head() + image() + content() + form(), "<!DOCTYPE"@, 0);
        assert(doc =~= doctype() + (head() + image() + content() + form()));
    }
    assert(occurs_in(doc, "static/js/htmx.v1.9.8.min.js"@)) by {
        let part = "<script src=\"static/js/htmx.v1.9.8.min.js\"></script>"@;
        let needle = "static/js/htmx.v1.9.8.min.js"@;
        reveal_strlit("<script src=\"static/js/htmx.v1.9.8.min.js\"></script>");
        reveal_strlit("static/js/htmx.v1.9.8.min.js");
        assert(part.subrange(13, 41) =~= needle);
        let front = doctype() + "<head>"@;
        let back = "<script src=\"static/js/htmx.v1.9.8.json-enc.js\"></script>"@
            + "<link rel=\"stylesheet\" href=\"static/css/index.css\"></link>"@ + "</head>"@
            + image() + content() + form();
        lemma_part(front, part, back, needle, 13);
        assert(doc =~= front + part + back);
    }
    assert(occurs_in(doc, "id=\"content\""@)) by {
        let needle = "id=\"content\""@;
        reveal_strlit("<div id=\"content\"><p>Hello world!</p></div>");
        reveal_strlit("id=\"content\"");
        assert(content().subrange(5, 17) =~= needle);
        lemma_part(doctype() + head() + image(), content(), form(), needle, 5);
    }
    let form_front = doctype() + head() + image() + content() + "<div>"@
        + "<label for=\"name\">Name</label>"@;
    let input = "<input type=\"text\" id=\"name\" name=\"name\">"@;
    let button =
        "<button hx-post=\"/html\" hx-include=\"[name='name']\" hx-ext=\"json-enc\" hx-target=\"#content\" hx-swap=\"outerHTML\">Submit!</button>"@;
    assert(doc =~= form_front + input + (button + "</div>"@));
    assert(doc =~= (form_front + input) + button + "</div>"@);
    assert(occurs_in(doc, "<label for=\"name\">Name</label>"@)) by {
        let label = "<label for=\"name\">Name</label>"@;
        let front = doctype() + head() + image() + content() + "<div>"@;
        assert(label.subrange(0, label.len() as int) =~= label);
        lemma_part(front, label, input + (button + "</div>"@), label, 0);
        assert(doc =~= front + label + (input + (button + "</div>"@)));
    }
    assert(occurs_in(doc, "id=\"name\""@)) by {
        let needle = "id=\"name\""@;
        reveal_strlit("<input type=\"text\" id=\"name\" name=\"name\">");
        reveal_strlit("id=\"name\"");
        assert(input.subrange(19, 28) =~= needle);
        lemma_part(form_front, input, button + "</div>"@, needle, 19);
    }
    assert(occurs_in(doc, "name=\"name\""@)) by {
        let needle = "name=\"name\""@;
        reveal_strlit("<input type=\"text\" id=\"name\" name=\"name\">");
        reveal_strlit("name=\"name\"");
        assert(input.subrange(29, 40) =~= needle);
        lemma_part(form_front, input, button + "</div>"@, needle, 29);
    }
    reveal_strlit(
        "<button hx-post=\"/html\" hx-include=\"[name='name']\" hx-ext=\"json-enc\" hx-target=\"#content\" hx-swap=\"outerHTML\">Submit!</button>",
    );
    assert(occurs_in(doc, "hx-post=\"/html\""@)) by {
        let needle = "hx-post=\"/html\""@;
        reveal_strlit("hx-post=\"/html\"");
        assert(button.subrange(8, 23) =~= needle);
        lemma_part(form_front + input, button, "</div>"@, needle, 8);
    }
    assert(occurs_in(doc, "/html"@)) by {
        let needle = "/html"@;
        reveal_strlit("/html");
        assert(button.subrange(17, 22) =~= needle);
        lemma_part(form_front + input, button, "</div>"@, needle, 17);
    }
}

/// The fragment for a name holds the greeting round the escaped name, and
/// holds the name nowhere else: it is that greeting between two fixed texts.
pub proof fn lemma_fragment_holds_greeting(name: Seq<char>)
    ensures
        fragment(name) == fragment_open() + (greeting_open() + escaped(name) + greeting_close())
            + fragment_close(),
        occurs_at(fragment(name), greeting(name), fragment_open().len() as int),
{
    lemma_occurs_in_middle(fragment_open(), greeting(name), fragment_close());
}

/// The place of the escaped name in the fragment.
pub open spec fn name_start() -> int {
    (fragment_open().len() + greeting_open().len()) as int
}

/// Where the name stands in the fragment there is no `<`, `>`, `"` or `'`,
/// and every `&` there is the first character of an entity: the
/// characters that markup gives a meaning to appear in their escaped forms
/// only.
pub proof fn lemma_fragment_name_is_inert(name: Seq<char>, i: int)
    requires
        name_start() <= i < name_start() + escaped(name).len(),
    ensures
        0 <= i < fragment(name).len(),
        fragment(name)[i] == escaped(name)[i - name_start()],
        !is_delimiter(fragment(name)[i]),
        fragment(name)[i] == '&' ==> entity_at(fragment(name), i),
{
    let front = fragment_open() + greeting_open();
    let back = greeting_close() + fragment_close();
    let k = i - name_start();
    assert(fragment(name) =~= front + escaped(name) + back);
    lemma_escaped_has_no_delimiter(name);
    assert(!is_delimiter(escaped(name)[k]));
    if fragment(name)[i] == '&' {
        lemma_ampersand_opens_entity(name, k);
        let c = choose|c: char| is_special(c) && occurs_at(escaped(name), #[trigger] escaped_char(c), k);
        lemma_part(front, escaped(name), back, escaped_char(c), k);
    }
}

} // verus!
