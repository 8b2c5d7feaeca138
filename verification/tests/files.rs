use htmx_echo::files::{file_type, find_parent_segment, percent_decode, served_type};
use htmx_echo::response::ContentType;

#[test]
fn file_types_by_extension() {
    assert_eq!(file_type("css/index.css"), Some(ContentType::Css));
    assert_eq!(file_type("js/htmx.v1.9.8.min.js"), Some(ContentType::JavaScript));
    assert_eq!(file_type("images/doodle.png"), Some(ContentType::Png));
}

#[test]
fn file_types_of_other_paths_are_not_known() {
    for path in ["", "css", "index.css.bak", "a.json", "a.jpg", "a.CSS", "a.pngx", "js", "png", "a.css/"] {
        assert_eq!(file_type(path), None, "{}", path);
    }
}

#[test]
fn finds_parent_segments() {
    for path in ["..", "../a", "a/..", "a/../b", "a/b/../../..", "/..", "../", "//..//"] {
        assert!(find_parent_segment(path), "{}", path);
    }
}

#[test]
fn finds_no_parent_segment_where_there_is_none() {
    for path in ["", ".", "a", "a/b", "..a", "a..", "a/..b", "b../a", "...", "a/.../b", "././a"] {
        assert!(!find_parent_segment(path), "{}", path);
    }
}

#[test]
fn decodes_percent_encoded_characters() {
    assert_eq!(percent_decode(""), "");
    assert_eq!(percent_decode("css/index.css"), "css/index.css");
    assert_eq!(percent_decode("%2e%2E%2f%2Fa%20b"), "..//a b");
    assert_eq!(percent_decode("%41%61%7a%7E"), "Aaz~");
    assert_eq!(percent_decode("a%2"), "a%2");
    assert_eq!(percent_decode("%"), "%");
    assert_eq!(percent_decode("%zz%2g%g2"), "%zz%2g%g2");
    assert_eq!(percent_decode("%%41"), "%A");
    assert_eq!(percent_decode("%252e"), "%2e");
    assert_eq!(percent_decode("%00%ff"), "\u{0}\u{ff}");
    assert_eq!(percent_decode("日%2e本"), "日.本");
}

#[test]
fn finds_percent_encoded_parent_segments() {
    for path in [
        "%2e%2e/Cargo.toml",
        "%2E%2E/Cargo.toml",
        ".%2e/Cargo.toml",
        "%2e./Cargo.toml",
        "..%2fCargo.toml",
        "..%2FCargo.toml",
        "%2e%2e%2fCargo.toml",
        "css/%2e%2e/%2e%2e/Cargo.toml",
        "css%2f..",
        "a/%2e%2e",
    ] {
        assert!(find_parent_segment(path), "{}", path);
    }
}

#[test]
fn finds_no_parent_segment_in_other_encoded_paths() {
    for path in ["%2e", "%2e%2e%2e", "%2e%2ea", "a%2e%2e", "%252e%252e/a", "%2e%2/a", "%2e%2e%5ca"] {
        assert!(!find_parent_segment(path), "{}", path);
    }
}

#[test]
fn file_types_of_encoded_paths() {
    assert_eq!(file_type("css/index%2ecss"), Some(ContentType::Css));
    assert_eq!(file_type("js/a%2Ejs"), Some(ContentType::JavaScript));
    assert_eq!(file_type("a.pn%67"), Some(ContentType::Png));
    assert_eq!(file_type("a.css%20"), None);
    assert_eq!(file_type("a%252ecss"), None);
}

#[test]
fn the_known_type_is_sent_with_a_success_only() {
    let css = Some(ContentType::Css);
    assert_eq!(served_type(200, css), css);
    assert_eq!(served_type(206, css), css);
    assert_eq!(served_type(299, css), css);
    assert_eq!(served_type(199, css), None);
    assert_eq!(served_type(300, css), None);
    assert_eq!(served_type(304, css), None);
    assert_eq!(served_type(404, css), None);
    assert_eq!(served_type(405, css), None);
    assert_eq!(served_type(0, css), None);
    assert_eq!(served_type(u16::MAX, css), None);
    assert_eq!(served_type(200, None), None);
    assert_eq!(served_type(404, None), None);
}
