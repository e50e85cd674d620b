use letrecovery::gho::{
    decrypt_password, format_gho_password_info, inspect_gho_header, is_gho_extension, is_valid_password,
    try_read_password_v1, try_read_password_v2, GhoPasswordInfo, XOR_KEY,
};

#[test]
fn test_decrypt_password() {
    let encrypted = [0xCB, 0xC5, 0xD9, 0xD8];
    let decrypted = decrypt_password(&encrypted, XOR_KEY);
    assert!(!decrypted.is_empty());
}

#[test]
fn test_is_valid_password() {
    assert!(is_valid_password("password123"));
    assert!(is_valid_password("Hello World"));
    assert!(!is_valid_password(""));
    assert!(!is_valid_password("\x00\x01\x02"));
}

#[test]
fn decrypt_password_xors_every_byte() {
    // 0xCB ^ 0xAA = 'a', 0xC5 ^ 0xAA = 'o', 0xD9 ^ 0xAA = 's', 0xD8 ^ 0xAA = 'r'
    assert_eq!(decrypt_password(&[0xCB, 0xC5, 0xD9, 0xD8], XOR_KEY), "aosr");
    assert_eq!(decrypt_password(&[], XOR_KEY), "");
}

#[test]
fn decrypt_password_replaces_invalid_utf8() {
    // 0x55 ^ 0xAA = 0xFF, which is not UTF-8
    assert_eq!(decrypt_password(&[0x55], XOR_KEY), "\u{FFFD}");
}

#[test]
fn non_ascii_is_not_a_password() {
    assert!(!is_valid_password("密码"));
    assert!(is_valid_password("~"));
    assert!(!is_valid_password("tab\there"));
}

fn header_with(flag_at: usize, flag: u8, len: u8, data_at: usize, plain: &[u8], key: u8) -> [u8; 64] {
    let mut h = [0u8; 64];
    h[flag_at] = flag;
    h[flag_at + 1] = len;
    for (i, b) in plain.iter().enumerate() {
        h[data_at + i] = b ^ key;
    }
    h
}

#[test]
fn v1_header_without_password() {
    let h = [0u8; 64];
    let info = try_read_password_v1(&h).unwrap();
    assert!(info.is_valid_gho);
    assert!(!info.has_password);
    assert_eq!(info.password, None);
}

#[test]
fn v1_header_with_password() {
    let h = header_with(0x18, 1, 4, 0x1c, b"abcd", XOR_KEY);
    let info = try_read_password_v1(&h).unwrap();
    assert!(info.has_password);
    assert_eq!(info.password.as_deref(), Some("abcd"));
    assert_eq!(info.password_length, 4);
}

#[test]
fn v1_header_with_unknown_flag_is_not_v1() {
    let h = header_with(0x18, 7, 4, 0x1c, b"abcd", XOR_KEY);
    assert!(try_read_password_v1(&h).is_none());
}

#[test]
fn v2_header_with_password() {
    let h = header_with(0x08, 1, 3, 0x0c, b"xyz", XOR_KEY);
    let info = try_read_password_v2(&h).unwrap();
    assert_eq!(info.password.as_deref(), Some("xyz"));
    assert_eq!(info.password_length, 3);
}

#[test]
fn inspect_reports_no_password() {
    let mut h = [0u8; 64];
    h[0] = 0xFE;
    h[1] = 0xEF;
    let info = inspect_gho_header(&h, &Vec::new(), None);
    assert!(info.is_valid_gho);
    assert!(!info.has_password);
}

#[test]
fn inspect_rejects_unknown_signature() {
    let h = [0u8; 64];
    let info = inspect_gho_header(&h, &Vec::new(), None);
    assert!(!info.is_valid_gho);
    assert_eq!(info.error.as_deref(), Some("无效的GHO文件签名: 0x00 0x00"));
}

#[test]
fn gho_extensions() {
    assert!(is_gho_extension("gho"));
    assert!(is_gho_extension("GHS"));
    assert!(!is_gho_extension("wim"));
}

#[test]
fn format_info_reports() {
    let invalid = GhoPasswordInfo {
        has_password: false,
        password: None,
        password_length: 0,
        is_valid_gho: false,
        error: Some("文件太小".to_string()),
    };
    assert_eq!(format_gho_password_info(&invalid), "无效的GHO文件: 文件太小\n");
    let open = GhoPasswordInfo {
        has_password: false,
        password: None,
        password_length: 0,
        is_valid_gho: true,
        error: None,
    };
    assert_eq!(format_gho_password_info(&open), "有效的GHO文件\n未设置密码保护\n");
    let locked = GhoPasswordInfo {
        has_password: true,
        password: Some("abc".to_string()),
        password_length: 3,
        is_valid_gho: true,
        error: None,
    };
    assert_eq!(
        format_gho_password_info(&locked),
        "有效的GHO文件\n已设置密码保护\n密码长度: 3 字符\n密码: abc\n"
    );
}
