use textbuf::document::Document;
use textbuf::events::TextPosition;

fn doc_with_path(path: &str) -> Document {
    Document::new(Some(path.to_string()), "", "plaintext".to_string())
}

#[test]
fn new_document_is_clean() {
    let doc = Document::new(None, "hello", "plaintext".to_string());
    assert!(!doc.is_dirty());
    assert_eq!(doc.language_id, "plaintext");
    assert_eq!(doc.get_text_buffer().get_text(), "hello");
}

#[test]
fn set_dirty_flips_only_the_flag() {
    let mut doc = Document::new(None, "hello", "rust".to_string());
    doc.set_dirty(true);
    assert!(doc.is_dirty());
    assert_eq!(doc.get_text_buffer().get_text(), "hello");
    doc.set_dirty(false);
    assert!(!doc.is_dirty());
}

#[test]
fn mutating_the_buffer_does_not_set_the_dirty_flag() {
    let mut doc = Document::new(None, "hello", "rust".to_string());
    doc.get_text_buffer_mut()
        .insert(TextPosition { byte_idx: 5 }, "!")
        .unwrap();
    assert_eq!(doc.get_text_buffer().get_text(), "hello!");
    assert!(!doc.is_dirty());
}

#[test]
fn file_name_defaults_to_untitled() {
    let doc = Document::new(None, "", "plaintext".to_string());
    assert_eq!(doc.file_name(), "Untitled");
}

#[test]
fn file_name_takes_the_final_path_component() {
    assert_eq!(doc_with_path("/home/user/main.rs").file_name(), "main.rs");
    assert_eq!(doc_with_path("notes.txt").file_name(), "notes.txt");
    assert_eq!(doc_with_path("a//b").file_name(), "b");
    assert_eq!(doc_with_path(".hidden").file_name(), ".hidden");
}

#[test]
fn file_name_ignores_trailing_separators() {
    assert_eq!(doc_with_path("dir/").file_name(), "dir");
    assert_eq!(doc_with_path("a/b//").file_name(), "b");
}

#[test]
fn file_name_ignores_trailing_dot_components() {
    assert_eq!(doc_with_path("foo/.").file_name(), "foo");
    assert_eq!(doc_with_path("a/./").file_name(), "a");
}

#[test]
fn file_name_without_a_component_is_untitled() {
    assert_eq!(doc_with_path("").file_name(), "Untitled");
    assert_eq!(doc_with_path("/").file_name(), "Untitled");
    assert_eq!(doc_with_path(".").file_name(), "Untitled");
    assert_eq!(doc_with_path("..").file_name(), "Untitled");
    assert_eq!(doc_with_path("a/..").file_name(), "Untitled");
}
