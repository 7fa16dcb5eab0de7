use avdan_bridge::render::{log_line, render_arg, render_object, LogArg};

#[test]
fn object_renders_one_line_per_property() {
    let pairs = vec![
        ("name".to_string(), "avdan".to_string()),
        ("kind".to_string(), "bridge".to_string()),
    ];
    assert_eq!(render_object(&pairs), "\n\tname => `avdan`\n\tkind => `bridge`");
}

#[test]
fn empty_object_renders_empty() {
    assert_eq!(render_object(&vec![]), "");
}

#[test]
fn object_rendering_keeps_property_order() {
    let pairs = vec![
        ("z".to_string(), "1".to_string()),
        ("a".to_string(), "2".to_string()),
    ];
    assert_eq!(render_object(&pairs), "\n\tz => `1`\n\ta => `2`");
}

#[test]
fn plain_args_join_with_single_spaces() {
    let args = vec![
        LogArg::Plain("hello".to_string()),
        LogArg::Plain("42".to_string()),
        LogArg::Plain("true".to_string()),
    ];
    assert_eq!(log_line(&args), "hello 42 true\n");
}

#[test]
fn no_args_still_terminate_with_newline() {
    assert_eq!(log_line(&vec![]), "\n");
}

#[test]
fn object_arg_uses_the_object_printing_rule() {
    let args = vec![
        LogArg::Plain("state:".to_string()),
        LogArg::Object(vec![("k".to_string(), "v".to_string())]),
    ];
    assert_eq!(log_line(&args), "state: \n\tk => `v`\n");
}

#[test]
fn rendering_never_fails_on_odd_text() {
    let args = vec![
        LogArg::Object(vec![
            ("self".to_string(), "[object Object]".to_string()),
            ("".to_string(), "".to_string()),
            ("tabs\t".to_string(), "new\nlines".to_string()),
        ]),
        LogArg::Plain(String::new()),
    ];
    let line = log_line(&args);
    assert!(line.ends_with('\n'));
    assert!(line.contains("self => `[object Object]`"));
}

#[test]
fn render_arg_passes_plain_text_through() {
    assert_eq!(render_arg(&LogArg::Plain("x".to_string())), "x");
    assert_eq!(render_arg(&LogArg::Object(vec![])), "");
}
