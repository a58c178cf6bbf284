use code_goat::compare::{clean_content, is_accepted, is_accepted_content};
use code_goat::models::InternalError;

#[test]
fn clean_trims_each_line_and_trailing_blanks() {
    let cleaned = clean_content(&b"a  \n b\t\r\n\n   \n".to_vec());
    assert_eq!(cleaned, b"a\n b".to_vec());
}

#[test]
fn clean_keeps_interior_blank_lines() {
    let cleaned = clean_content(&b"a\n\nb\n".to_vec());
    assert_eq!(cleaned, b"a\n\nb".to_vec());
}

#[test]
fn clean_of_whitespace_only_text_is_empty() {
    assert_eq!(clean_content(&b" \t\r\n \n".to_vec()), Vec::<u8>::new());
    assert_eq!(clean_content(&Vec::new()), Vec::<u8>::new());
}

#[test]
fn comparison_is_reflexive() {
    let texts: Vec<&[u8]> = vec![b"", b"hello\n", b"a \n b \n\n", b"\r\n\r\n", b"no newline"];
    for t in texts {
        assert!(is_accepted_content(&t.to_vec(), &t.to_vec()));
    }
}

#[test]
fn trailing_whitespace_does_not_affect_equality() {
    assert!(is_accepted_content(&b"hello\n".to_vec(), &b"hello".to_vec()));
    assert!(is_accepted_content(&b"hello  ".to_vec(), &b"hello".to_vec()));
    assert!(is_accepted_content(&b"a\nb\n\n\n".to_vec(), &b"a\nb".to_vec()));
    assert!(is_accepted_content(&b"a \t\nb\r\n".to_vec(), &b"a\nb".to_vec()));
}

#[test]
fn leading_and_interior_whitespace_still_count() {
    assert!(!is_accepted_content(&b" hello".to_vec(), &b"hello".to_vec()));
    assert!(!is_accepted_content(&b"a b".to_vec(), &b"ab".to_vec()));
    assert!(!is_accepted_content(&b"a\n\nb".to_vec(), &b"a\nb".to_vec()));
}

#[test]
fn different_content_is_rejected() {
    assert!(!is_accepted_content(&b"hello\n".to_vec(), &b"world".to_vec()));
    assert!(!is_accepted_content(&b"1".to_vec(), &b"2".to_vec()));
}

#[test]
fn cleaning_is_idempotent() {
    let texts: Vec<&[u8]> = vec![b"", b"a \nb\t\n\n", b" lead\n", b"x\r\n\r\n", b"  \n\t\n"];
    for t in texts {
        let once = clean_content(&t.to_vec());
        let twice = clean_content(&once);
        assert_eq!(twice, once);
    }
}

#[test]
fn same_file_is_accepted() {
    // Any readable file compares equal to itself.
    assert_eq!(is_accepted("/etc/os-release", "/etc/os-release").unwrap(), true);
}

#[test]
fn different_files_are_rejected() {
    assert_eq!(is_accepted("/etc/os-release", "/etc/hostname").unwrap(), false);
}

#[test]
fn missing_file_is_a_read_error() {
    let e = is_accepted("/etc/os-release", "/no_such_file_anywhere.txt").unwrap_err();
    assert!(matches!(e, InternalError::ReadOutput(_)));
}
