use letrecovery::pe::{
    bcd_path, bytes_contains, extract_guid, guid_file_content, is_uefi_boot, loader_settings, next_boot_guid,
    ramdisk_settings, secure_boot_enabled_from_query, should_upgrade_pe_winload, stale_pe_guids, PeError, PeManager,
    PeSource,
};

#[test]
fn pe_source_by_extension() {
    let m = PeManager::new("D:\\LR\\bin");
    assert_eq!(m.boot_to_pe("E:\\pe\\WinPE.ISO"), Ok(PeSource::Iso));
    assert_eq!(m.boot_to_pe("E:\\pe\\boot.wim"), Ok(PeSource::Wim));
    let e = m.boot_to_pe("E:\\pe\\boot.vhd").unwrap_err();
    assert_eq!(e, PeError::UnsupportedFormat);
    assert_eq!(e.message(), "不支持的PE文件格式，请使用 .iso 或 .wim 文件");
    assert_eq!(m.bcdedit_path(), "D:\\LR\\bin\\bcdedit.exe");
}

#[test]
fn bcdedit_commands() {
    let m = PeManager::new("B:");
    let c = m.ramdisk_create("LetRecovery PE");
    assert_eq!(c.program, "B:\\bcdedit.exe");
    assert_eq!(c.args, vec!["/create", "/d", "LetRecovery PE RAM", "/device"]);
    let c = m.osloader_create("LetRecovery PE");
    assert_eq!(c.args, vec!["/create", "/d", "LetRecovery PE", "/application", "osloader"]);
    assert_eq!(m.display_order_first("{g}").args, vec!["/displayorder", "{g}", "/addfirst"]);
    assert_eq!(m.boot_sequence("{g}").args, vec!["/bootsequence", "{g}"]);
    let r = PeManager::reboot();
    assert_eq!(r.program, "shutdown");
    assert_eq!(r.args[0], "/r");
}

#[test]
fn bcd_paths_drop_drive_and_use_backslashes() {
    assert_eq!(bcd_path("C:/LetRecovery/pe/boot.wim"), "\\LetRecovery\\pe\\boot.wim");
    assert_eq!(bcd_path("C:\\boot\\boot.sdi"), "\\boot\\boot.sdi");
}

#[test]
fn ramdisk_and_loader_settings() {
    let r = ramdisk_settings("{r}", "\\boot\\boot.sdi");
    assert_eq!(r, vec![
        vec!["/set", "{r}", "ramdisksdidevice", "partition=C:"],
        vec!["/set", "{r}", "ramdisksdipath", "\\boot\\boot.sdi"],
    ]);
    let l = loader_settings("{l}", "\\pe\\boot.wim", "{r}", true);
    assert_eq!(l.len(), 7);
    assert_eq!(l[0], vec!["/set", "{l}", "device", "ramdisk=[C:]\\pe\\boot.wim,{r}"]);
    assert_eq!(l[1], vec!["/set", "{l}", "path", "\\windows\\system32\\boot\\winload.efi"]);
    assert_eq!(l[6], vec!["/set", "{l}", "ems", "no"]);
    let legacy = loader_settings("{l}", "\\pe\\boot.wim", "{r}", false);
    assert_eq!(legacy[1][3], "\\windows\\system32\\boot\\winload.exe");
}

#[test]
fn remembered_guids() {
    let c = guid_file_content("{a}", "{b}");
    assert_eq!(c, "{a}\n{b}");
    assert_eq!(next_boot_guid(&c).as_deref(), Some("{b}"));
    assert_eq!(next_boot_guid("{a}"), None);
    assert_eq!(stale_pe_guids("{a}\n\n{b}\n"), vec!["{a}".to_string(), "{b}".to_string()]);
}

#[test]
fn guid_from_bcdedit_output() {
    let out = "The entry {6b8e1f2a-0000-11ee-8000-000000000000} was successfully created.";
    assert_eq!(extract_guid(out).unwrap(), "{6b8e1f2a-0000-11ee-8000-000000000000}");
    let out2 = "已将项 {0f1a2b3c-1111-2222-3333-444455556666}. 成功复制";
    assert_eq!(extract_guid(out2).unwrap(), "{0f1a2b3c-1111-2222-3333-444455556666}");
    let e = extract_guid("nothing here").unwrap_err();
    assert_eq!(e.message(), "无法从bcdedit输出中提取GUID: nothing here");
}

#[test]
fn secure_boot_and_uefi_detection() {
    assert!(secure_boot_enabled_from_query(Some("UEFISecureBootEnabled    REG_DWORD    0X1")));
    assert!(!secure_boot_enabled_from_query(Some("UEFISecureBootEnabled    REG_DWORD    0x0")));
    assert!(!secure_boot_enabled_from_query(None));
    assert!(is_uefi_boot(true, None, None));
    assert!(is_uefi_boot(false, Some("UEFI"), None));
    assert!(is_uefi_boot(false, Some("bios"), Some("path \\Windows\\system32\\winload.efi")));
    assert!(!is_uefi_boot(false, Some("bios"), Some("path \\Windows\\system32\\winload.exe")));
}

#[test]
fn winload_upgrade_needs_2023_signature_and_family() {
    let mut host = b"... Windows UEFI CA 2023 ...".to_vec();
    for c in "10.0.19041.".chars() {
        host.push(c as u8);
        host.push(0);
    }
    assert!(should_upgrade_pe_winload(true, &host));
    assert!(!should_upgrade_pe_winload(false, &host));
    assert!(!should_upgrade_pe_winload(true, b"Windows UEFI CA 2011"));
    assert!(bytes_contains(b"abcabd", b"abd"));
    assert!(!bytes_contains(b"abc", b""));
    assert!(!bytes_contains(b"ab", b"abc"));
}
