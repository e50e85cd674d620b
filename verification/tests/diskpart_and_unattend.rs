use letrecovery::app_state::{App, Environment};
use letrecovery::disk::{Partition, PartitionStyle};
use letrecovery::diskpart::{
    format_outcome, format_script, hex8_upper, inactive_script, new_signature, parse_disk_id, sibling_volumes,
    signature_check, signature_read_script, signature_write_script, signature_written_message, SignatureCheck,
};
use letrecovery::unattend::{system_family, unattend_xml, SystemFamily};
use letrecovery::unattend_check::{source_unattend_candidates, unattend_locations, UnattendCheckResult};
use letrecovery::wim::{ImageInfo, WimImageType};

fn p(letter: &str, disk: Option<u32>) -> Partition {
    Partition {
        letter: letter.to_string(),
        label: String::new(),
        total_size_mb: 0,
        free_size_mb: 0,
        has_windows: false,
        is_system_partition: false,
        partition_style: PartitionStyle::MBR,
        disk_number: disk,
        partition_number: Some(1),
    }
}

#[test]
fn format_script_uses_the_bare_letter() {
    assert_eq!(format_script("C:\\"), "select volume C\r\nformat fs=ntfs quick override\r\nexit\r\n");
    assert_eq!(format_script("W:"), "select volume W\r\nformat fs=ntfs quick override\r\nexit\r\n");
}

#[test]
fn format_outcome_is_read_from_the_output() {
    assert!(format_outcome("  DiskPart Successfully Formatted the volume.", "").is_ok());
    assert!(format_outcome("DiskPart 成功格式化该卷。", "").is_ok());
    assert_eq!(
        format_outcome("", "  "),
        Err("格式化失败（diskpart）: diskpart 无输出，格式化失败。请确认该分区未被占用后重试。".to_string())
    );
    assert_eq!(
        format_outcome("  DiskPart 遇到错误: 拒绝访问。  \r\n", " x "),
        Err("格式化失败（diskpart）: DiskPart 遇到错误: 拒绝访问。\nx".to_string())
    );
}

#[test]
fn siblings_are_the_other_lettered_volumes_of_the_disk() {
    let ps = vec![p("C:\\", Some(0)), p("W:\\", Some(0)), p("D:\\", Some(1)), p("", Some(0)), p("E:", Some(0))];
    assert_eq!(sibling_volumes("w:", &ps), vec!["C".to_string(), "E".to_string()]);
    assert!(sibling_volumes("Z:", &ps).is_empty());
    let unknown = vec![p("W:\\", None), p("C:\\", None)];
    assert!(sibling_volumes("W:", &unknown).is_empty());
    assert_eq!(inactive_script("C"), "select volume C\r\ninactive\r\nexit\r\n");
}

#[test]
fn disk_signature_is_read_from_uniqueid_output() {
    assert_eq!(signature_read_script(2), "select disk 2\r\nuniqueid disk\r\nexit\r\n");
    let out = "\r\nMicrosoft DiskPart\r\n\r\n磁盘 2 现在是所选磁盘。\r\n\r\nDisk ID: 1a2b3c4d\r\n";
    assert_eq!(parse_disk_id(out), Some("1A2B3C4D".to_string()));
    assert_eq!(parse_disk_id("nothing here\n"), None);
    assert_eq!(parse_disk_id("ID: 123\nid 0000000000\n"), None);
    match signature_check(2, out) {
        SignatureCheck::Keep(m) => assert_eq!(m, "磁盘 2 已有 MBR 签名 1A2B3C4D，无需处理"),
        SignatureCheck::Write => panic!("a non-zero signature is kept"),
    }
    assert!(matches!(signature_check(0, "磁盘 ID: 00000000\r\n"), SignatureCheck::Write));
    match signature_check(1, "  garbage  ") {
        SignatureCheck::Keep(m) => {
            assert_eq!(m, "磁盘 1 未解析到 MBR 签名（可能是 GPT/输出异常），保守跳过。输出：garbage")
        }
        SignatureCheck::Write => panic!("an unreadable signature is left alone"),
    }
}

#[test]
fn a_new_signature_is_never_zero() {
    assert_eq!(new_signature(0), 0x1000_0000);
    assert_eq!(new_signature(0xA1B2_C3D4), 0xB1B2_C3D4);
    assert_eq!(hex8_upper(0x1a2b), "00001A2B");
    assert_eq!(hex8_upper(new_signature(0)), "10000000");
    assert_eq!(hex8_upper(0xdeadbeef), format!("{:08X}", 0xdeadbeefu32));
    assert_eq!(signature_write_script(3, "10000000"), "select disk 3\r\nuniqueid disk id=10000000\r\nexit\r\n");
    assert_eq!(
        signature_written_message(3, "10000000", " ok \n"),
        "磁盘 3 原 MBR 签名为 0，已写入新签名 10000000（diskpart: ok）"
    );
}

#[test]
fn system_family_from_ntdll_version() {
    assert_eq!(system_family(Some((6, 1))), SystemFamily::Win7);
    assert_eq!(system_family(Some((6, 2))), SystemFamily::Win8);
    assert_eq!(system_family(Some((6, 3))), SystemFamily::Win8);
    assert_eq!(system_family(Some((10, 0))), SystemFamily::Later);
    assert_eq!(system_family(None), SystemFamily::Later);
}

#[test]
fn answer_file_for_windows_10() {
    let x = unattend_xml("amd64", Some((10, 0)), true, true, "Alice");
    assert!(x.starts_with("<?xml version=\"1.0\" encoding=\"utf-8\"?>\n<unattend"));
    assert_eq!(x.matches("processorArchitecture=\"amd64\"").count(), 4);
    assert_eq!(x.matches("Alice").count(), 3);
    assert!(x.contains("<Order>1</Order>\n                    <CommandLine>cmd /c if exist %SystemDrive%\\LetRecovery_Scripts\\firstlogon.bat"));
    assert!(x.contains("<Order>2</Order>\n                    <CommandLine>powershell -ExecutionPolicy Bypass -File %SystemDrive%\\LetRecovery_Scripts\\remove_uwp.ps1"));
    assert!(x.contains("<Order>3</Order>\n                    <CommandLine>cmd /c rd /s /q %SystemDrive%\\LetRecovery_Scripts</CommandLine>"));
    assert!(x.contains("<HideOnlineAccountScreens>true</HideOnlineAccountScreens>"));
    assert!(x.ends_with("</unattend>"));
}

#[test]
fn answer_file_for_windows_7_keeps_preinstalled_apps() {
    let x = unattend_xml("x86", Some((6, 1)), true, true, "");
    assert!(!x.contains("remove_uwp.ps1"));
    assert!(x.contains("<Order>2</Order>\n                    <CommandLine>cmd /c rd /s /q"));
    assert!(!x.contains("HideLocalAccountScreen"));
    assert!(x.contains("<NetworkLocation>Home</NetworkLocation>"));
    assert!(x.contains("<Name>MyPc</Name>"));
    let y = unattend_xml("x86", Some((6, 3)), false, false, "Bob");
    assert!(y.contains("<HideLocalAccountScreen>true</HideLocalAccountScreen>"));
    assert!(!y.contains("HideOnlineAccountScreens"));
    assert!(y.contains("<Username>MyPc</Username>"));
}

#[test]
fn answer_file_locations_on_a_partition() {
    let v = unattend_locations("D:");
    assert_eq!(v.len(), 12);
    assert_eq!(v[0], "D:\\Windows\\Panther\\unattend.xml");
    assert_eq!(v[6], "D:\\Windows\\System32\\Sysprep\\Panther\\unattend.xml");
    assert_eq!(v[11], "D:\\AutoUnattend.xml");
    let mut present = vec![false; 12];
    present[7] = true;
    present[2] = true;
    let r = App::check_unattend_files_in_partition("D:", &present);
    assert!(r.has_unattend);
    assert_eq!(r.detected_paths, vec!["D:\\Windows\\Panther\\autounattend.xml".to_string(), "D:\\unattend.xml".to_string()]);
    let none = App::check_unattend_files_in_partition("D:", &vec![false; 12]);
    assert!(!none.has_unattend);
    assert!(none.detected_paths.is_empty());
}

#[test]
fn source_answer_files_are_looked_for_at_the_medium_root_or_image_folder() {
    assert_eq!(
        source_unattend_candidates("X:\\Sources\\install.wim"),
        vec![
            "X:\\autounattend.xml".to_string(),
            "X:\\Autounattend.xml".to_string(),
            "X:\\AutoUnattend.xml".to_string(),
            "X:\\unattend.xml".to_string(),
            "X:\\Unattend.xml".to_string(),
        ]
    );
    assert_eq!(source_unattend_candidates("D:\\imgs\\win.wim")[0], "D:\\imgs\\autounattend.xml");
    assert_eq!(source_unattend_candidates("C:\\win.wim")[3], "C:\\unattend.xml");
    assert!(source_unattend_candidates("win.wim").is_empty());
    assert!(source_unattend_candidates("   ").is_empty());
}

fn app_with_partition(letter: &str) -> App {
    let mut a = App::new(Environment { is_pe: true, advanced_options_enabled: false });
    a.target.partitions = vec![p(letter, Some(0))];
    a.target.selected_partition = Some(0);
    a
}

#[test]
fn unattend_default_follows_partition_and_source() {
    let mut a = app_with_partition("D:");
    a.target.unattend_check_loading = true;
    a.check_unattend_status(Some(UnattendCheckResult {
        partition_letter: "D:".to_string(),
        has_unattend: true,
        detected_paths: vec!["D:\\unattend.xml".to_string()],
    }));
    assert!(!a.target.unattend_check_loading);
    assert!(a.target.partition_has_unattend);
    assert!(!a.target.unattended_install);

    let mut b = app_with_partition("D:");
    b.target.unattend_check_loading = true;
    b.target.unattended_install = false;
    b.check_unattend_status(Some(UnattendCheckResult {
        partition_letter: "E:".to_string(),
        has_unattend: true,
        detected_paths: vec![],
    }));
    assert!(!b.target.unattend_check_loading);
    assert!(!b.target.partition_has_unattend);
    assert!(!b.target.unattended_install);

    b.refresh_source_unattend(false);
    assert!(b.target.unattended_install);
    b.refresh_source_unattend(true);
    assert!(!b.target.unattended_install);

    let mut c = app_with_partition("D:");
    c.check_unattend_status(Some(UnattendCheckResult {
        partition_letter: "D:".to_string(),
        has_unattend: true,
        detected_paths: vec![],
    }));
    assert!(!c.target.partition_has_unattend);
}

fn vol(index: u32, name: &str, itype: &str, major: Option<u16>) -> ImageInfo {
    ImageInfo {
        index,
        name: name.to_string(),
        size_bytes: 0,
        installation_type: itype.to_string(),
        major_version: major,
        minor_version: None,
        image_type: WimImageType::StandardInstall,
        verified_installable: false,
    }
}

fn pe_vol(index: u32) -> ImageInfo {
    let mut v = vol(index, "Microsoft Windows PE", "WindowsPE", None);
    v.image_type = WimImageType::WindowsPE;
    v
}

#[test]
fn embedded_answer_file_probe_index() {
    let mut a = app_with_partition("D:");
    a.image.local_image_path = "D:\\x.gho".to_string();
    assert_eq!(a.source_unattend_probe_index(), None);
    a.image.local_image_path = "D:\\x.WIM".to_string();
    assert_eq!(a.source_unattend_probe_index(), Some(1));
    a.image.image_volumes = vec![pe_vol(4), vol(6, "Windows 10 Pro", "Client", Some(10))];
    assert_eq!(a.source_unattend_probe_index(), Some(6));
    a.image.image_volumes = vec![pe_vol(4)];
    assert_eq!(a.source_unattend_probe_index(), Some(4));
}

#[test]
fn storage_driver_default_follows_the_chosen_volume() {
    let mut a = app_with_partition("D:");
    a.image.local_image_path = "D:\\x.wim".to_string();
    a.image.image_volumes = vec![vol(1, "Windows 7", "Client", Some(6)), vol(2, "Windows 11", "Client", Some(10))];
    a.image.selected_volume = Some(1);
    a.update_storage_controller_driver_default();
    assert_eq!(a.image.storage_driver_default_target, Some("D:\\x.wim::2::Windows 11".to_string()));
    assert!(a.image.import_storage_controller_drivers);
    a.image.import_storage_controller_drivers = false;
    a.update_storage_controller_driver_default();
    assert!(!a.image.import_storage_controller_drivers);
    a.image.selected_volume = Some(0);
    a.update_storage_controller_driver_default();
    assert!(!a.image.import_storage_controller_drivers);
    assert_eq!(a.image.storage_driver_default_target, Some("D:\\x.wim::1::Windows 7".to_string()));
    a.image.selected_volume = None;
    a.update_storage_controller_driver_default();
    assert_eq!(a.image.storage_driver_default_target, None);
}
