use dawfu::inspect::{ascii_preview, printable_byte};
use dawfu::nonempty::IsNotEmpty;

#[test]
fn printable_bytes_pass_through() {
    assert_eq!(printable_byte(b'A'), b'A');
    assert_eq!(printable_byte(b' '), b' ');
    assert_eq!(printable_byte(b'~'), b'~');
}

#[test]
fn unprintable_bytes_become_dots() {
    assert_eq!(printable_byte(0x00), b'.');
    assert_eq!(printable_byte(0x1f), b'.');
    assert_eq!(printable_byte(0x7f), b'.');
    assert_eq!(printable_byte(0xff), b'.');
}

#[test]
fn preview_renders_mixed_bytes() {
    let preview = ascii_preview(&[0x00, b'M', b'O', 0x7f, b'2', 0x0a]);
    assert_eq!(preview, b".MO.2.".to_vec());
    assert_eq!(String::from_utf8(preview).unwrap(), ".MO.2.");
}

#[test]
fn preview_of_empty_input_is_empty() {
    assert_eq!(ascii_preview(&[]), Vec::<u8>::new());
}

#[test]
fn is_not_empty_on_strings_and_bytes() {
    assert!("x".is_not_empty());
    assert!(!"".is_not_empty());
    assert!(String::from("watch").is_not_empty());
    assert!(!String::new().is_not_empty());
    assert!(vec![0u8].is_not_empty());
    assert!(!Vec::<u8>::new().is_not_empty());
}
