use faff_plugin_matrix_rust::collections::TextMap;
use faff_plugin_matrix_rust::template::render;

fn fields_with(title: &str) -> TextMap {
    let mut f = TextMap::new();
    f.insert("title", title.to_string());
    f
}

#[test]
fn render_handles_unicode_in_template() {
    assert_eq!(render("▶ {title}", &fields_with("ok")), "▶ ok");
}

#[test]
fn render_handles_emoji_in_template() {
    assert_eq!(render("⏱ {title} 🎯", &fields_with("focus")), "⏱ focus 🎯");
}

#[test]
fn render_unknown_keys_become_empty() {
    assert_eq!(render("[{nope}]", &TextMap::new()), "[]");
}

#[test]
fn render_unmatched_open_brace_is_passthrough() {
    assert_eq!(render("hello {world", &TextMap::new()), "hello {world");
}

#[test]
fn render_no_placeholders_is_identity() {
    assert_eq!(render("plain text", &TextMap::new()), "plain text");
}

#[test]
fn render_replaces_multiple_placeholders() {
    let mut f = TextMap::new();
    f.insert("a", "1".to_string());
    f.insert("b", "2".to_string());
    assert_eq!(render("{a}-{b}", &f), "1-2");
}

#[test]
fn render_keeps_stray_closing_braces() {
    assert_eq!(render("a} {title} }b", &fields_with("ok")), "a} ok }b");
}

#[test]
fn render_does_not_render_values_again() {
    assert_eq!(render("<{title}>", &fields_with("{title}")), "<{title}>");
}

#[test]
fn render_takes_a_key_up_to_the_first_closing_brace() {
    let mut f = fields_with("ok");
    f.insert("a{title", "odd".to_string());
    assert_eq!(render("{a{title}}", &f), "odd}");
    assert_eq!(render("{}{title}", &f), "ok");
    assert_eq!(render("{title} {open {title}", &f), "ok ");
    assert_eq!(render("", &f), "");
}

#[test]
fn render_ignores_fields_that_are_not_named() {
    let mut f = fields_with("ok");
    let before = render("{title}!", &f);
    f.insert("other", "x".to_string());
    assert_eq!(render("{title}!", &f), before);
}

#[test]
fn render_takes_templates_one_by_one() {
    let f = fields_with("ok");
    let (first, second) = ("a {title} ", "{nope}b{title}");
    assert_eq!(
        render(&format!("{first}{second}"), &f),
        format!("{}{}", render(first, &f), render(second, &f))
    );
    // A placeholder that the first leaves open is closed by the second.
    assert_eq!(render("{tit", &f), "{tit");
    assert_eq!(render("le}", &f), "le}");
    assert_eq!(render("{title}", &f), "ok");
}

#[test]
fn render_leaves_a_message_as_it_is() {
    let f = fields_with("ok");
    let message = render("{title} } {nope} {open", &f);
    assert_eq!(message, "ok }  {open");
    assert_eq!(render(&message, &f), message);
}
