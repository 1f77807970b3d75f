use nipe::args::{resolve_editor, Args, DEFAULT_EDITOR, DEFAULT_SUFFIX};

fn args(suffix: Option<&str>, clipboard_editor: bool, trim: bool) -> Args {
    Args { suffix: suffix.map(String::from), clipboard_editor, trim }
}

#[test]
fn defaults() {
    assert_eq!(DEFAULT_SUFFIX, "txt");
    assert_eq!(DEFAULT_EDITOR, "vi");
}

#[test]
fn suffix_falls_back_to_the_default() {
    assert_eq!(args(None, false, false).get_suffix(), "txt");
}

#[test]
fn suffix_is_the_one_given() {
    assert_eq!(args(Some("md"), false, false).get_suffix(), "md");
    assert_eq!(args(Some("tar.gz"), false, false).get_suffix(), "tar.gz");
}

#[test]
fn empty_suffix_stays_empty() {
    assert_eq!(args(Some(""), false, false).get_suffix(), "");
    assert_eq!(args(Some(""), false, false).file_suffix(), ".");
}

#[test]
fn file_suffix_is_a_dot_and_the_suffix() {
    assert_eq!(args(None, false, false).file_suffix(), ".txt");
    assert_eq!(args(Some("md"), true, true).file_suffix(), ".md");
    assert_eq!(args(Some("rs"), false, true).file_suffix(), ".rs");
}

#[test]
fn a_name_with_the_file_suffix_ends_with_it() {
    for suffix in [None, Some("md"), Some(""), Some("tar.gz")] {
        let a = args(suffix, false, false);
        let name = format!(".tmpAbC123{}", a.file_suffix());
        assert!(name.ends_with(&format!(".{}", suffix.unwrap_or("txt"))));
    }
}

#[test]
fn output_is_untouched_without_trim() {
    let a = args(None, false, false);
    assert_eq!(a.get_output(String::from("  spaced  \n\n")), "  spaced  \n\n");
    assert_eq!(a.get_output(String::from("hello\n\n")), "hello\n\n");
    assert_eq!(a.get_output(String::new()), "");
}

#[test]
fn output_is_trimmed_with_trim() {
    let a = args(None, false, true);
    assert_eq!(a.get_output(String::from("  spaced  \n\n")), "spaced");
    assert_eq!(a.get_output(String::from("\n\na\n\nb\n")), "a\n\nb");
    assert_eq!(a.get_output(String::from(" \n ")), "");
}

#[test]
fn editor_is_the_one_named() {
    assert_eq!(resolve_editor(Some(String::from("nano"))), "nano");
    assert_eq!(resolve_editor(Some(String::from("code --wait"))), "code --wait");
}

#[test]
fn editor_falls_back_to_the_default() {
    assert_eq!(resolve_editor(None), "vi");
}
