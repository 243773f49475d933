use history_box::render::render_entries;

fn texts(items: &[&str]) -> Vec<String> {
    items.iter().map(|item| item.to_string()).collect()
}

#[test]
fn no_entries_render_as_none_and_an_empty_list() {
    assert_eq!(render_entries(&Vec::new()), "HistoryBox { current: None, history: [] }");
}

#[test]
fn one_entry_renders_without_a_separator() {
    assert_eq!(
        render_entries(&texts(&["1"])),
        "HistoryBox { current: Some(1), history: [1] }"
    );
}

#[test]
fn entries_render_oldest_first_with_the_newest_as_current() {
    assert_eq!(
        render_entries(&texts(&["1", "2", "3"])),
        "HistoryBox { current: Some(3), history: [1, 2, 3] }"
    );
}

#[test]
fn entry_texts_are_copied_verbatim() {
    assert_eq!(
        render_entries(&texts(&["", "a, b", "\u{e9}]"])),
        "HistoryBox { current: Some(\u{e9}]), history: [, a, b, \u{e9}]] }"
    );
}
