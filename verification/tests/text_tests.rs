use aviutl_plugin::filters::{filters_from_host_list, split_nul_components, FileFilters};
use aviutl_plugin::text::{from_host_str, from_host_str_lossy, to_host_cstr, to_host_str};
use aviutl_plugin::AviUtlError;

#[test]
fn ascii_encodes_to_itself() {
    let r = to_host_str("hello.avi").unwrap();
    assert_eq!(r, b"hello.avi".to_vec());
}

#[test]
fn japanese_text_is_reencoded_not_passed_through() {
    // HIRAGANA LETTER A is one character but two code-page bytes.
    let r = to_host_str("\u{3042}").unwrap();
    assert_eq!(r, vec![0x82, 0xA0]);
    let back = from_host_str(&[0x82, 0xA0]).unwrap();
    assert_eq!(back, "\u{3042}");
}

#[test]
fn unmappable_character_is_an_encoding_error() {
    // EURO SIGN has no place in the host's code page.
    assert!(matches!(to_host_str("\u{20AC}"), Err(AviUtlError::Encoding)));
}

#[test]
fn malformed_bytes_are_an_encoding_error() {
    // a lone lead byte is malformed
    assert!(matches!(from_host_str(&[0x82]), Err(AviUtlError::Encoding)));
    // the lossy form keeps the replacement character instead
    let lossy = from_host_str_lossy(&[0x82]);
    assert_eq!(lossy, "\u{FFFD}");
}

#[test]
fn cstr_form_appends_one_terminator() {
    let r = to_host_cstr("abc").unwrap();
    assert_eq!(r, vec![97, 98, 99, 0]);
}

#[test]
fn cstr_form_refuses_interior_zero() {
    assert!(matches!(to_host_cstr("a\u{0}b"), Err(AviUtlError::Encoding)));
}

#[test]
fn filter_list_renders_zero_separated() {
    let mut fs = FileFilters::new();
    fs.add_filter("AVI".to_string(), "*.avi".to_string());
    fs.add_filter("WAV".to_string(), "*.wav".to_string());
    assert_eq!(fs.len(), 2);
    assert_eq!(fs.to_c_string(), b"AVI\0*.avi\0WAV\0*.wav\0".to_vec());
    fs.clear();
    assert_eq!(fs.len(), 0);
    assert_eq!(fs.to_c_string(), Vec::<u8>::new());
}

#[test]
fn split_on_zero_keeps_every_run() {
    let parts = split_nul_components(b"a\0bb\0");
    assert_eq!(parts, vec![b"a".to_vec(), b"bb".to_vec(), b"".to_vec()]);
    let no_zero = split_nul_components(b"abc");
    assert_eq!(no_zero, vec![b"abc".to_vec()]);
    let empty = split_nul_components(b"");
    assert_eq!(empty, vec![b"".to_vec()]);
}

#[test]
fn host_filter_list_parses_in_pairs() {
    let fs = filters_from_host_list(b"Video\0*.avi\0Audio\0*.wav\0");
    assert_eq!(fs.len(), 2);
    assert_eq!(fs.filter_at(0).name, "Video");
    assert_eq!(fs.filter_at(0).blob_pattern, "*.avi");
    assert_eq!(fs.filter_at(1).name, "Audio");
    assert_eq!(fs.filter_at(1).blob_pattern, "*.wav");
}

#[test]
fn leading_mark_like_bytes_are_read_as_code_page_text() {
    // These three bytes are a byte-order mark in other encodings, but the
    // host's code page reads them as ordinary characters: they must not
    // vanish.
    let text = from_host_str_lossy(&[0xEF, 0xBB, 0xBF]);
    assert!(!text.is_empty());
}
