use nh_system::os_text::OsText;
use nh_system::text::{join, same_text, trim, white_space};
use std::path::Path;

fn text_of(path: OsText) -> String {
    String::from_utf8(path.into_bytes()).unwrap()
}

#[test]
fn white_space_is_that_of_unicode() {
    for number in 0..=0x10ffffu32 {
        if let Some(c) = char::from_u32(number) {
            assert_eq!(white_space(c), c.is_whitespace(), "{number:x}");
        }
    }
}

#[test]
fn trim_is_that_of_the_standard_library() {
    for text in ["", " ", "\n\t", "true\n", "  a b \u{a0}", "\u{3000}x", "x\u{200b}"] {
        assert_eq!(trim(text), text.trim());
    }
}

#[test]
fn join_is_that_of_the_standard_library() {
    let parts = vec![String::from("a"), String::new(), String::from("b")];
    assert_eq!(join(&parts, "."), parts.join("."));
    assert_eq!(join(&[], "."), "");
    assert_eq!(join(&[String::from("x")], "."), "x");
}

#[test]
fn texts_are_compared_by_their_characters() {
    assert!(same_text("systemConfigs", "systemConfigs"));
    assert!(!same_text("systemConfigs", "systemconfigs"));
}

#[test]
fn paths_are_joined_as_by_the_standard_library() {
    for base in ["", "/", "/nix/store/x", "/nix/store/x/", "a"] {
        for tail in ["result", "bin/system-manager-engine", "", "/absolute"] {
            let expected = Path::new(base).join(tail);
            assert_eq!(
                text_of(OsText::from_text(base).join(tail)),
                expected.to_str().unwrap()
            );
        }
    }
}

#[test]
fn bytes_that_are_no_text_are_shown_with_replacements() {
    let path = OsText::from_bytes(vec![b'/', 0xff, b'x']);
    assert_eq!(path.to_text(), "/\u{fffd}x");
    assert_eq!(path.into_bytes(), vec![b'/', 0xff, b'x']);
    assert_eq!(OsText::from_text("/é").to_text(), "/é");
}
