use ante::text_buffer::{is_whitespace, Buffer, BufferStatus};

fn chars(s: &str) -> Vec<char> {
    s.chars().collect()
}

fn rows(b: &Buffer) -> Vec<String> {
    (0..b.get_lenght()).map(|i| b.borrow_row_at(i).render()).collect()
}

fn read(text: &str) -> Buffer {
    Buffer::new_from_file("file.txt".to_string(), Some(chars(text)))
}

#[test]
fn buffer_new_empty_has_one_row() {
    let b = Buffer::new_empty();
    assert_eq!(b.get_lenght(), 1);
    assert_eq!(rows(&b), vec![""]);
    assert!(b.row_is_empty(0));
    assert!(!b.is_empty());
    assert_eq!(b.get_path(), None);
    assert_eq!(b.get_path_as_str(), None);
    assert_eq!(b.get_status(), BufferStatus::Unsaved);
}

#[test]
fn buffer_reads_one_row_per_line() {
    let b = read("ab  \ncd\r\n\nx");
    assert_eq!(rows(&b), vec!["ab", "cd", "", "x"]);
    assert_eq!(b.get_lenght(), 4);
    assert_eq!(b.get_lenght_of_row(1), 2);
    assert_eq!(*b.borrow_char_at(1, 1), 'd');
    assert_eq!(b.get_path(), Some("file.txt".to_string()));
    assert_eq!(b.get_path_as_str(), Some("file.txt"));
    assert_eq!(b.get_status(), BufferStatus::Saved);
}

#[test]
fn buffer_trims_only_line_ends() {
    let b = read("  a b \t\n\u{3000}x\u{3000}\n");
    assert_eq!(rows(&b), vec!["  a b", "\u{3000}x"]);
}

#[test]
fn buffer_reads_empty_text_as_one_row() {
    let b = read("");
    assert_eq!(rows(&b), vec![""]);
    let b = read("\n");
    assert_eq!(rows(&b), vec![""]);
}

#[test]
fn buffer_unreadable_file_is_fresh() {
    let b = Buffer::new_from_file("missing.txt".to_string(), None);
    assert_eq!(rows(&b), vec![""]);
    assert_eq!(b.get_path_as_str(), Some("missing.txt"));
    assert_eq!(b.get_status(), BufferStatus::Saved);
}

#[test]
fn buffer_file_text_ends_each_row() {
    let b = read("abc\ndef");
    assert_eq!(b.file_text(), "abc\ndef\n");
}

#[test]
fn buffer_round_trip_through_text() {
    let b = read("first\n\n  indented\nlast");
    let again = read(&b.file_text());
    assert_eq!(rows(&again), rows(&b));
    assert_eq!(again.get_lenght(), 4);
}

#[test]
fn buffer_save_twice_is_stable() {
    let mut b = read("one\ntwo\n");
    let text = b.file_text();
    assert_eq!(b.save(true), BufferStatus::Saved);
    assert_eq!(b.file_text(), text);
    assert_eq!(b.save(true), BufferStatus::Saved);
    assert_eq!(b.file_text(), text);
    assert_eq!(b.get_status(), BufferStatus::Saved);
}

#[test]
fn buffer_save_failure_or_no_path_is_unsaved() {
    let mut b = read("x");
    assert_eq!(b.save(false), BufferStatus::Unsaved);
    let mut e = Buffer::new_empty();
    assert_eq!(e.save(true), BufferStatus::Unsaved);
}

#[test]
fn buffer_save_as() {
    let mut b = Buffer::new_empty();
    assert_eq!(b.save_as("out.txt".to_string(), false), BufferStatus::Unsaved);
    assert_eq!(b.get_path(), None);
    assert_eq!(b.save_as("out.txt".to_string(), true), BufferStatus::Saved);
    assert_eq!(b.get_path_as_str(), Some("out.txt"));
    b.clear_path();
    assert_eq!(b.get_path(), None);
}

#[test]
fn buffer_new_path_saves_one_blank_line() {
    let mut b = Buffer::new_from_file("new.txt".to_string(), None);
    assert_eq!(b.file_text(), "\n");
    assert_eq!(b.save(true), BufferStatus::Saved);
    assert_eq!(b.get_status(), BufferStatus::Saved);
}

#[test]
fn buffer_edits_mark_unsaved() {
    let mut b = read("abc\ndef");
    b.insert_char(1, 0, 'X');
    assert_eq!(rows(&b), vec!["aXbc", "def"]);
    assert_eq!(b.get_status(), BufferStatus::Unsaved);
    b.save(true);
    b.delete_char(0, 1);
    assert_eq!(rows(&b), vec!["aXbc", "ef"]);
    assert_eq!(b.get_status(), BufferStatus::Unsaved);
}

#[test]
fn buffer_row_insertion_and_removal() {
    let mut b = read("abc\ndef");
    b.insert_row_at(1);
    assert_eq!(rows(&b), vec!["abc", "", "def"]);
    b.insert_row_at_with_vec(3, vec!['g', 'h']);
    assert_eq!(rows(&b), vec!["abc", "", "def", "gh"]);
    let tail = b.remove_row_from(1, 0);
    assert_eq!(tail, vec!['b', 'c']);
    assert_eq!(rows(&b), vec!["a", "", "def", "gh"]);
    let data = b.remove_row_to_get_data(2);
    assert_eq!(data, vec!['d', 'e', 'f']);
    assert_eq!(rows(&b), vec!["a", "", "gh"]);
    let mut more = vec!['!'];
    b.push_vec_to_row(0, &mut more);
    assert!(more.is_empty());
    assert_eq!(rows(&b), vec!["a!", "", "gh"]);
    assert_eq!(b.get_lenght(), 3);
}

#[test]
fn buffer_keeps_a_row_after_removals() {
    let mut b = read("a\nb\nc\nd");
    while b.get_lenght() > 1 {
        b.remove_row_to_get_data(0);
        assert!(b.get_lenght() >= 1);
    }
    assert_eq!(rows(&b), vec!["d"]);
    assert!(!b.is_empty());
}

#[test]
fn whitespace_test_follows_unicode() {
    assert!(is_whitespace(' '));
    assert!(is_whitespace('\t'));
    assert!(is_whitespace('\r'));
    assert!(is_whitespace('\u{3000}'));
    assert!(is_whitespace('\u{85}'));
    assert!(!is_whitespace('a'));
    assert!(!is_whitespace('\u{200b}'));
    for c in ['a', ' ', '\n', '\u{a0}', '\u{2009}', '\u{180e}', 'é', '\u{feff}'] {
        assert_eq!(is_whitespace(c), c.is_whitespace());
    }
}
