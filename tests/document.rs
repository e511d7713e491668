use rte::document::Document;

fn rows(doc: &Document) -> Vec<String> {
    (0..doc.len()).map(|i| doc.get_row(i).clone()).collect()
}

fn doc_of(lines: &[&str]) -> Document {
    Document::new("notes.txt", Some(&lines.join("\n")))
}

#[test]
fn load_missing_file_gives_one_empty_line() {
    let doc = Document::new("missing.txt", None);
    assert_eq!(doc.len(), 1);
    assert_eq!(doc.get_row(0), "");
    assert!(!doc.is_modified());
    assert_eq!(doc.file_path(), "missing.txt");
}

#[test]
fn load_empty_file_gives_one_empty_line() {
    let doc = Document::new("empty.txt", Some(""));
    assert_eq!(rows(&doc), vec![""]);
}

#[test]
fn load_keeps_inner_empty_lines() {
    let doc = Document::new("f", Some("a\n\nb"));
    assert_eq!(rows(&doc), vec!["a", "", "b"]);
}

#[test]
fn load_drops_final_newline() {
    assert_eq!(rows(&Document::new("f", Some("a\nb\n"))), vec!["a", "b"]);
    assert_eq!(rows(&Document::new("f", Some("\n"))), vec![""]);
    assert_eq!(rows(&Document::new("f", Some("a\n\n"))), vec!["a", ""]);
}

#[test]
fn try_get_row_past_end_is_none() {
    let doc = doc_of(&["x", "y"]);
    assert_eq!(doc.try_get_row(1).map(|s| s.as_str()), Some("y"));
    assert!(doc.try_get_row(2).is_none());
}

#[test]
fn newline_splits_line_at_column() {
    let mut doc = doc_of(&["hello", "world"]);
    doc.insert_char(0, 2, '\n');
    assert_eq!(rows(&doc), vec!["he", "llo", "world"]);
    assert_eq!(doc.len(), 3);
    assert!(doc.is_modified());
}

#[test]
fn newline_at_line_ends() {
    let mut doc = doc_of(&["ab"]);
    doc.insert_char(0, 2, '\n');
    assert_eq!(rows(&doc), vec!["ab", ""]);
    doc.insert_char(0, 0, '\n');
    assert_eq!(rows(&doc), vec!["", "ab", ""]);
}

#[test]
fn insert_char_counts_characters_not_bytes() {
    let mut doc = doc_of(&["héllo"]);
    doc.insert_char(0, 2, 'x');
    assert_eq!(doc.get_row(0), "héxllo");
    doc.insert_char(0, 6, '!');
    assert_eq!(doc.get_row(0), "héxllo!");
}

#[test]
fn remove_char_takes_one_character() {
    let mut doc = doc_of(&["añb", "c"]);
    doc.remove_char(0, 1);
    assert_eq!(rows(&doc), vec!["ab", "c"]);
    assert!(doc.is_modified());
}

#[test]
fn join_appends_row_to_previous() {
    let mut doc = doc_of(&["ab", "cd", "ef"]);
    doc.join_row_with_previous(1);
    assert_eq!(rows(&doc), vec!["abcd", "ef"]);
    assert_eq!(doc.len(), 2);
    assert!(doc.is_modified());
}

#[test]
fn to_text_joins_without_final_newline() {
    let doc = doc_of(&["a", "", "b"]);
    assert_eq!(doc.to_text(), "a\n\nb");
    assert_eq!(Document::new("f", None).to_text(), "");
}

#[test]
fn save_then_load_gives_same_lines() {
    let doc = doc_of(&["one", "", "three"]);
    let again = Document::new("f", Some(&doc.to_text()));
    assert_eq!(rows(&again), rows(&doc));
}

#[test]
fn save_then_load_drops_last_empty_line() {
    let mut doc = doc_of(&["one"]);
    doc.insert_char(0, 3, '\n');
    assert_eq!(rows(&doc), vec!["one", ""]);
    let again = Document::new("f", Some(&doc.to_text()));
    assert_eq!(rows(&again), vec!["one"]);
}

#[test]
fn mark_saved_clears_modified() {
    let mut doc = doc_of(&["a"]);
    doc.insert_char(0, 0, 'b');
    assert!(doc.is_modified());
    doc.mark_saved();
    assert!(!doc.is_modified());
    assert_eq!(doc.get_row(0), "ba");
}
