use nh_system::attribute::{configuration_candidates, render_attr_path};

#[test]
fn test_configuration_candidates_preserve_literal_hostname() {
    assert_eq!(
        configuration_candidates("host.example.com"),
        [
            vec![String::from("host.example.com")],
            vec![String::from("default")],
        ]
    );
}

#[test]
fn test_render_attr_path_quotes_and_escapes_segments() {
    assert_eq!(
        render_attr_path(&[
            String::from("host.example.com"),
            String::from("quoted\"name"),
        ]),
        "\"host.example.com\".\"quoted\\\"name\""
    );
}

#[test]
fn rendering_doubles_backslashes() {
    assert_eq!(
        render_attr_path(&[String::from("a\\b"), String::from("\\\"")]),
        "\"a\\\\b\".\"\\\\\\\"\""
    );
}

#[test]
fn rendering_of_no_segment_is_empty() {
    assert_eq!(render_attr_path(&[]), "");
    assert_eq!(render_attr_path(&[String::new()]), "\"\"");
}

#[test]
fn rendering_escapes_as_two_replacements_do() {
    for segment in ["", "plain", "\\", "\"", "\\\"", "\"\\\\\"x", "é\"\\é"] {
        let expected = format!(
            "\"{}\"",
            segment.replace('\\', "\\\\").replace('"', "\\\"")
        );
        assert_eq!(render_attr_path(&[segment.to_string()]), expected);
    }
}

#[test]
fn different_paths_are_written_differently() {
    let one = render_attr_path(&[String::from("a\".\"b")]);
    let two = render_attr_path(&[String::from("a"), String::from("b")]);
    assert_ne!(one, two);
    assert_eq!(two, "\"a\".\"b\"");
}
