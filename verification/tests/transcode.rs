use ssb_publish::node_buffer_binary_serializer;

#[test]
fn transcode_ascii() {
    assert_eq!(node_buffer_binary_serializer("abc"), vec![0x61, 0x62, 0x63]);
}

#[test]
fn transcode_empty() {
    assert_eq!(node_buffer_binary_serializer(""), Vec::<u8>::new());
}

#[test]
fn transcode_truncates_to_low_utf16_bytes() {
    // 'é' is U+00E9 (one code unit, 0x00E9), '☃' is U+2603 (one code unit),
    // and '𝄞' is U+1D11E (surrogate pair 0xD834 0xDD1E).
    assert_eq!(
        node_buffer_binary_serializer("é☃𝄞"),
        vec![0xE9, 0x03, 0x34, 0x1E],
    );
}
