use htmx_echo::escape::html_escape;

#[test]
fn escapes_the_five_special_characters() {
    assert_eq!(html_escape("&"), "&amp;");
    assert_eq!(html_escape("<"), "&lt;");
    assert_eq!(html_escape(">"), "&gt;");
    assert_eq!(html_escape("\""), "&quot;");
    assert_eq!(html_escape("'"), "&#39;");
}

#[test]
fn leaves_other_text_as_it_is() {
    assert_eq!(html_escape(""), "");
    assert_eq!(html_escape("Ada Lovelace"), "Ada Lovelace");
    assert_eq!(html_escape("Zoë ✓ 日本 🦀"), "Zoë ✓ 日本 🦀");
    assert_eq!(html_escape("a;b#c/d\\e"), "a;b#c/d\\e");
}

#[test]
fn escapes_a_script_tag() {
    assert_eq!(
        html_escape("<script>alert('x')</script>"),
        "&lt;script&gt;alert(&#39;x&#39;)&lt;/script&gt;"
    );
}

#[test]
fn escapes_what_is_already_escaped_once_more() {
    assert_eq!(html_escape("&lt;"), "&amp;lt;");
    assert_eq!(html_escape("&#39;"), "&amp;#39;");
}

#[test]
fn escaped_text_has_no_delimiter_and_every_ampersand_opens_an_entity() {
    let entities = ["&amp;", "&lt;", "&gt;", "&quot;", "&#39;"];
    for text in ["<a href=\"x\">'&'</a>", "&&&", "''\"\"<<>>", "Tom & Jerry's <best> \"show\""] {
        let out = html_escape(text);
        assert!(!out.contains('<'));
        assert!(!out.contains('>'));
        assert!(!out.contains('"'));
        assert!(!out.contains('\''));
        for (at, c) in out.char_indices() {
            if c == '&' {
                assert!(entities.iter().any(|e| out[at..].starts_with(e)));
            }
        }
    }
}

#[test]
fn different_texts_have_different_escaped_forms() {
    assert_ne!(html_escape("<"), html_escape("&lt;"));
    assert_ne!(html_escape("'"), html_escape("&#39;"));
    assert_ne!(html_escape("a&b"), html_escape("a&amp;b"));
}

#[test]
fn every_other_character_stands_for_itself() {
    let mut code: u32 = 0;
    while code <= 0x10ffff {
        if let Some(c) = char::from_u32(code) {
            if !"&<>\"'".contains(c) {
                let text = c.to_string();
                assert_eq!(html_escape(&text), text);
            }
        }
        code += 1;
    }
}
