use htmx_echo::text::{begins_with, chars_of, holds_at, is_text, text_from};

#[test]
fn chars_of_a_text() {
    assert_eq!(chars_of(""), Vec::<char>::new());
    assert_eq!(chars_of("aé日"), vec!['a', 'é', '日']);
}

#[test]
fn text_from_a_position() {
    let chars = chars_of("/static/a.css");
    assert_eq!(text_from(&chars, 8), "a.css");
    assert_eq!(text_from(&chars, 0), "/static/a.css");
    assert_eq!(text_from(&chars, 13), "");
    assert_eq!(text_from(&chars, 14), "");
    assert_eq!(text_from(&chars, usize::MAX), "");
}

#[test]
fn holds_at_a_position() {
    let hay = chars_of("hello");
    assert!(holds_at(&hay, &chars_of("ell"), 1));
    assert!(holds_at(&hay, &chars_of(""), 5));
    assert!(!holds_at(&hay, &chars_of(""), 6));
    assert!(!holds_at(&hay, &chars_of("ell"), 0));
    assert!(!holds_at(&hay, &chars_of("lo!"), 3));
    assert!(!holds_at(&hay, &chars_of("hello!"), 0));
    assert!(!holds_at(&hay, &chars_of("x"), usize::MAX));
}

#[test]
fn is_text_and_begins_with() {
    let hay = chars_of("/json");
    assert!(is_text(&hay, "/json"));
    assert!(!is_text(&hay, "/jso"));
    assert!(!is_text(&hay, "/jsonx"));
    assert!(!is_text(&hay, "/html"));
    assert!(begins_with(&hay, "/js"));
    assert!(begins_with(&hay, ""));
    assert!(!begins_with(&hay, "/jsonx"));
    assert!(!begins_with(&hay, "json"));
}
