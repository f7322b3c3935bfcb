use nucleid::Format;

#[test]
fn test_format_enum() {
    assert_eq!(Format::RGB888.code(), 0x34324752);
}

#[test]
fn format_code_round_trip() {
    assert_eq!(Format::from_code(0x34324752), Some(Format::RGB888));
    assert_eq!(Format::from_code(0x34325258), Some(Format::XRGB8888));
    assert_eq!(Format::XRGB8888.code(), 0x34325258);
    assert_eq!(Format::from_code(0), None);
    assert_eq!(Format::from_code(0xdeadbeef), None);
}
