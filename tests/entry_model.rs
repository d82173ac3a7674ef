use pass4thewin::entry::{EntryError, Password};
use pass4thewin::text::{split_lines, string_to_vec};

fn lines(v: &[&str]) -> Vec<String> {
    v.iter().map(|s| s.to_string()).collect()
}

#[test]
fn single_line_serializes_unchanged() {
    for s in ["my_super_secure_password", "", "two words", "trailing space "] {
        let p = Password::from_single_line(s);
        assert_eq!(p.to_string().unwrap(), s);
    }
}

#[test]
fn multi_line_text_serializes_with_newlines() {
    let mut p = Password::default();
    p.multi_line_input("multi\nline\npassword");
    assert_eq!(p.to_string().unwrap(), "multi\nline\npassword\n");
    assert_eq!(p.line(1), Some("multi\n"));
    assert_eq!(p.line(3), Some("password\n"));
    p.multi_line_input("a\nb\n");
    assert_eq!(p.to_string().unwrap(), "a\nb\n");
}

#[test]
fn single_line_text_keeps_no_newline() {
    let mut p = Password::default();
    p.multi_line_input("only\n");
    assert_eq!(p.to_string().unwrap(), "only");
    assert_eq!(p.line(1), Some("only"));
}

#[test]
fn crlf_counts_as_one_line_ending() {
    assert_eq!(split_lines("a\r\nb\r\n"), lines(&["a", "b"]));
    assert_eq!(split_lines("a\rb"), lines(&["a\rb"]));
    assert_eq!(split_lines("x\n\ny"), lines(&["x", "", "y"]));
    assert_eq!(string_to_vec("a\r\nb"), Some(lines(&["a\n", "b\n"])));
}

#[test]
fn text_without_lines_is_no_entry() {
    assert_eq!(string_to_vec(""), None);
    let mut p = Password::default();
    p.multi_line_input("");
    assert_eq!(p.to_string(), Err(EntryError::EmptyEntry));
}

#[test]
fn line_zero_is_line_one() {
    let p = Password::from_multi_line(&lines(&["multi\n", "line\n", "password\n"]));
    assert_eq!(p.line(0), p.line(1));
    assert_eq!(p.line(0), Some("multi\n"));
    assert_eq!(p.line(2), Some("line\n"));
    assert_eq!(p.line(4), None);
    let q = Password::from_single_line("x");
    assert_eq!(q.line(0), Some("x"));
    assert_eq!(q.line(1), Some("x"));
    assert_eq!(q.line(2), None);
}

#[test]
fn entry_without_lines_cannot_serialize() {
    let mut p = Password::from_single_line("secret");
    p.clean_password();
    assert_eq!(p.to_string(), Err(EntryError::EmptyEntry));
    assert_eq!(p.line(1), None);
    let q = Password::from_multi_line(&Vec::new());
    assert_eq!(q.to_string(), Err(EntryError::EmptyEntry));
}

#[test]
fn filepath_is_name_with_extension_under_root() {
    let mut p = Password::default();
    assert!(p.get_filepath().is_none());
    assert!(!p.file_exists());
    p.set_filepath("/store", "folder/password");
    assert_eq!(p.get_filepath().unwrap(), "/store/folder/password.gpg");
    p.set_filepath("/store/", "x");
    assert_eq!(p.get_filepath().unwrap(), "/store/x.gpg");
    assert!(!p.file_exists());
}

#[test]
fn terminal_input_rules() {
    let mut p = Password::default();
    assert_eq!(Password::check_first_reading(""), Err(EntryError::EmptyEntry));
    assert_eq!(Password::check_first_reading("a"), Ok(()));
    assert_eq!(p.accept_terminal_input("", Some("")), Err(EntryError::EmptyEntry));
    assert_eq!(p.accept_terminal_input("abc", Some("abd")), Err(EntryError::Mismatch));
    assert_eq!(p.to_string(), Err(EntryError::EmptyEntry));
    assert_eq!(p.accept_terminal_input("abc", Some("abc")), Ok(()));
    assert_eq!(p.to_string().unwrap(), "abc");
    assert_eq!(p.accept_terminal_input("", None), Ok(()));
    assert_eq!(p.to_string(), Err(EntryError::EmptyEntry));
    assert_eq!(p.accept_terminal_input("l1\nl2\n", None), Ok(()));
    assert_eq!(p.to_string().unwrap(), "l1\nl2\n");
}

#[test]
fn open_decrypt_needs_a_path() {
    let mut p = Password::default();
    assert_eq!(p.open_decrypt("secret"), Err(EntryError::PathNotSet));
    p.set_filepath("/store", "name");
    assert_eq!(p.open_decrypt(""), Err(EntryError::EmptyEntry));
    assert_eq!(p.open_decrypt("a\nb"), Ok(()));
    assert_eq!(p.line(2), Some("b\n"));
}

#[test]
fn single_line_input_replaces_lines() {
    let mut p = Password::from_multi_line(&lines(&["a\n", "b\n"]));
    p.single_line_input("generated");
    assert_eq!(p.to_string().unwrap(), "generated");
}

#[test]
fn edit_applies_only_changed_text() {
    let mut p = Password::from_single_line("old");
    assert!(!p.accept_edit("old", "old"));
    assert_eq!(p.to_string().unwrap(), "old");
    assert!(p.accept_edit("old", "new\nsecond"));
    assert_eq!(p.to_string().unwrap(), "new\nsecond\n");
}
