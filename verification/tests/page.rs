use htmx_echo::page::{content_fragment, index_page};

#[test]
fn index_page_is_the_whole_document() {
    let expected = [
        "<!DOCTYPE html>",
        "<head>",
        "<script src=\"static/js/htmx.v1.9.8.min.js\"></script>",
        "<script src=\"static/js/htmx.v1.9.8.json-enc.js\"></script>",
        "<link rel=\"stylesheet\" href=\"static/css/index.css\"></link>",
        "</head>",
        "<img src=\"static/images/doodle.png\">",
        "<div id=\"content\"><p>Hello world!</p></div>",
        "<div>",
        "<label for=\"name\">Name</label>",
        "<input type=\"text\" id=\"name\" name=\"name\">",
        "<button hx-post=\"/html\" hx-include=\"[name='name']\" hx-ext=\"json-enc\" hx-target=\"#content\" hx-swap=\"outerHTML\">Submit!</button>",
        "</div>",
    ]
    .concat();
    assert_eq!(index_page(), expected);
}

#[test]
fn index_page_holds_what_the_client_needs() {
    let page = index_page();
    assert!(page.starts_with("<!DOCTYPE"));
    for needle in [
        "id=\"content\"",
        "name=\"name\"",
        "/html",
        "hx-post=\"/html\"",
        "static/js/htmx.v1.9.8.min.js",
        "static/js/htmx.v1.9.8.json-enc.js",
        "static/css/index.css",
        "static/images/doodle.png",
        "hx-include=\"[name='name']\"",
        "hx-ext=\"json-enc\"",
        "hx-target=\"#content\"",
        "hx-swap=\"outerHTML\"",
        "Submit!",
        "<p>Hello world!</p>",
        ">Name</label>",
        "id=\"name\"",
    ] {
        assert!(page.contains(needle), "{}", needle);
    }
}

#[test]
fn index_page_labels_its_input() {
    let page = index_page();
    assert_eq!(page.matches("<label").count(), 1);
    assert!(page.contains("<label for=\"name\">Name</label>"));
    assert_eq!(page.matches("id=\"name\"").count(), 1);
    assert!(page.contains("<input type=\"text\" id=\"name\" name=\"name\">"));
    assert!(!page.contains("name-input"));
}

#[test]
fn index_page_keeps_the_order_of_its_parts() {
    let page = index_page();
    let order = [
        "<!DOCTYPE",
        "<head>",
        "htmx.v1.9.8.min.js",
        "htmx.v1.9.8.json-enc.js",
        "index.css",
        "</head>",
        "doodle.png",
        "id=\"content\"",
        "<label",
        "<input",
        "<button",
    ];
    let mut last = 0;
    for needle in order {
        let at = page.find(needle).unwrap();
        assert!(at >= last, "{}", needle);
        last = at;
    }
}

#[test]
fn index_page_is_the_same_every_time() {
    assert_eq!(index_page(), index_page());
}

#[test]
fn fragment_greets_the_name() {
    assert_eq!(
        content_fragment("Ada"),
        "<div id=\"content\"><p>Hello Ada! This is HTMX.</p></div>"
    );
}

#[test]
fn fragment_for_the_empty_name() {
    assert_eq!(content_fragment(""), "<div id=\"content\"><p>Hello ! This is HTMX.</p></div>");
}

#[test]
fn fragment_for_a_unicode_name() {
    assert_eq!(
        content_fragment("Zoë 日本"),
        "<div id=\"content\"><p>Hello Zoë 日本! This is HTMX.</p></div>"
    );
}

#[test]
fn fragment_escapes_the_name() {
    let body = content_fragment("<script>");
    assert!(body.contains("&lt;script&gt;"));
    assert!(!body.contains("<script>"));
    assert_eq!(body, "<div id=\"content\"><p>Hello &lt;script&gt;! This is HTMX.</p></div>");
}

#[test]
fn fragment_escapes_quotes_and_ampersands() {
    assert_eq!(
        content_fragment("\"O'Neil\" & co"),
        "<div id=\"content\"><p>Hello &quot;O&#39;Neil&quot; &amp; co! This is HTMX.</p></div>"
    );
}

#[test]
fn fragment_holds_the_name_only_between_its_fixed_texts() {
    let open = "<div id=\"content\"><p>Hello ";
    let close = "! This is HTMX.</p></div>";
    for name in ["Ada", "<b>", "a'b", "x & y", "", "div", "Hello"] {
        let body = content_fragment(name);
        assert!(body.starts_with(open));
        assert!(body.ends_with(close));
        let middle = &body[open.len()..body.len() - close.len()];
        assert_eq!(middle, htmx_echo::escape::html_escape(name));
    }
}
