use adapter_report::vendor::vendor_to_string;

#[test]
fn known_vendors_have_names() {
    assert_eq!(vendor_to_string(0x1002), "AMD");
    assert_eq!(vendor_to_string(0x10DE), "NVIDIA");
    assert_eq!(vendor_to_string(0x8086), "Intel");
    assert_eq!(vendor_to_string(0x13B5), "ARM");
    assert_eq!(vendor_to_string(0x5143), "Qualcomm");
    assert_eq!(vendor_to_string(0x1010), "ImgTec");
}

#[test]
fn unknown_vendors_show_their_code_in_capital_hex() {
    assert_eq!(vendor_to_string(0xFFFF), "Unknown (0xFFFF)");
    assert_eq!(vendor_to_string(0), "Unknown (0x0)");
    assert_eq!(vendor_to_string(0xABC), "Unknown (0xABC)");
    assert_eq!(vendor_to_string(0x1003), "Unknown (0x1003)");
    assert_eq!(vendor_to_string(0x00A0), "Unknown (0xA0)");
    assert_eq!(vendor_to_string(u32::MAX), "Unknown (0xFFFFFFFF)");
}

#[test]
fn every_code_but_six_is_unknown() {
    let known: [u32; 6] = [0x1002, 0x10DE, 0x8086, 0x13B5, 0x5143, 0x1010];
    let mut code: u32 = 0;
    while code < 0x2_0000 {
        if !known.contains(&code) {
            assert_eq!(vendor_to_string(code), format!("Unknown (0x{:X})", code));
        }
        code += 1;
    }
}
