use codelldb_launcher::report::hex8;

#[test]
fn hex8_writes_eight_upper_case_digits() {
    assert_eq!(hex8(0), "00000000");
    assert_eq!(hex8(1), "00000001");
    assert_eq!(hex8(0x7E), "0000007E");
    assert_eq!(hex8(0x0123_4567), "01234567");
    assert_eq!(hex8(0x89AB_CDEF), "89ABCDEF");
    assert_eq!(hex8(u32::MAX), "FFFFFFFF");
}

#[test]
fn hex8_agrees_with_the_standard_formatter() {
    let samples: [u32; 6] = [5, 16, 255, 4096, 0x8000_0000, 0xC000_0135];
    for code in samples {
        assert_eq!(hex8(code), format!("{:08X}", code));
    }
}
