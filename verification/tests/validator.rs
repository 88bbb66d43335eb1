use markdown_publish::validate::check_file_name;

#[test]
fn names_of_allowed_characters_are_accepted() {
    assert!(check_file_name("notes_1"));
    assert!(check_file_name("abcdefghijklmnopqrstuvwxyz"));
    assert!(check_file_name("ABCDEFGHIJKLMNOPQRSTUVWXYZ"));
    assert!(check_file_name("0123456789"));
    assert!(check_file_name("with space"));
    assert!(check_file_name("mixed_Case 42"));
}

#[test]
fn the_empty_name_is_rejected() {
    assert!(!check_file_name(""));
}

#[test]
fn names_with_path_syntax_are_rejected() {
    assert!(!check_file_name("a/b"));
    assert!(!check_file_name("/etc"));
    assert!(!check_file_name(".."));
    assert!(!check_file_name("."));
    assert!(!check_file_name("..\\up"));
    assert!(!check_file_name("a\\b"));
}

#[test]
fn names_with_other_characters_are_rejected() {
    assert!(!check_file_name("a\0b"));
    assert!(!check_file_name("name.md"));
    assert!(!check_file_name("dash-ed"));
    assert!(!check_file_name("semi;colon"));
    assert!(!check_file_name("tab\tname"));
    assert!(!check_file_name("newline\n"));
    assert!(!check_file_name("caf\u{e9}"));
    assert!(!check_file_name("$(rm)"));
}
