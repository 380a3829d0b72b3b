use deroff::decode_bytes;

#[test]
fn plain_utf8_passes_through() {
    let text = "caf\u{e9} \u{1F5FB}\n";
    assert_eq!(decode_bytes(text.as_bytes()).unwrap(), text);
    assert_eq!(decode_bytes(b"").unwrap(), "");
}

#[test]
fn utf16_with_a_byte_order_mark_is_decoded() {
    // "hi" in UTF-16LE and in UTF-16BE, each after its mark.
    assert_eq!(decode_bytes(&[0xFF, 0xFE, b'h', 0, b'i', 0]).unwrap(), "hi");
    assert_eq!(decode_bytes(&[0xFE, 0xFF, 0, b'h', 0, b'i']).unwrap(), "hi");
}

#[test]
fn a_mark_of_utf8_is_dropped() {
    assert_eq!(decode_bytes(&[0xEF, 0xBB, 0xBF, b'a']).unwrap(), "a");
    assert_eq!(decode_bytes(&[0xEF, 0xBB, 0xBF]).unwrap(), "");
}

#[test]
fn two_bytes_are_too_few_for_a_mark() {
    assert!(decode_bytes(&[0xFF, 0xFE]).is_err());
    assert!(decode_bytes(&[0xFE, 0xFF]).is_err());
    assert!(decode_bytes(&[0xEF, 0xBB]).is_err());
}

#[test]
fn bytes_that_are_no_text_are_an_error() {
    assert!(decode_bytes(&[0xFF, 0xB7, 0xFF, 0xC2]).is_err());
    assert!(decode_bytes(&[b'a', 0x80]).is_err());
}

#[test]
fn halfwidth_text_without_a_mark_is_an_error() {
    // UTF-16 without a byte order mark: the bytes are taken for UTF-8, which
    // they are not.
    let bytes = [
        0xFF, 0xB7, 0xFF, 0xC2, 0xFF, 0xA4, 0xFF, 0xA4, 0xFF, 0xCA, 0xFF, 0xB7, 0xFF, 0xBE, 0xFF,
        0xC2, 0xFF, 0xB5, 0xFF, 0xC7, 0xFF, 0xB7, 0xFF, 0xD2, 0xFF, 0xB5, 0xFF, 0xC7, 0xFF, 0xFF,
        0xA1, 0xFF, 0xCB,
    ];
    assert!(decode_bytes(&bytes).is_err());
}
