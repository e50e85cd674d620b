use letrecovery::dism::{Dism, ExportWork, ManualExportError, Win10Step};
use letrecovery::partition_copy::is_trimmable;
use letrecovery::app_state::{App, Environment, IsoMountResult, PeEntry};
use letrecovery::bcd::BootManager;
use letrecovery::disk::{DiskPartitionInfo, Partition, PartitionStyle, PhysicalDisk};
use letrecovery::expand::compute_expand_c_info;
use letrecovery::gho::decrypt_password;
use letrecovery::pe_install::PeWork;
use letrecovery::wim::{decode_utf16le, ImageInfo, WimError, WimImageType};

fn app(is_pe: bool) -> App {
    App::new(Environment { is_pe, advanced_options_enabled: false })
}

fn part(letter: &str, is_system: bool, style: PartitionStyle, disk: u32, no: u32) -> Partition {
    Partition {
        letter: letter.to_string(),
        label: String::new(),
        total_size_mb: 100 * 1024,
        free_size_mb: 50 * 1024,
        has_windows: true,
        is_system_partition: is_system,
        partition_style: style,
        disk_number: Some(disk),
        partition_number: Some(no),
    }
}

fn vol(name: &str, kind: WimImageType) -> ImageInfo {
    ImageInfo {
        index: 1,
        name: name.to_string(),
        size_bytes: 0,
        installation_type: String::new(),
        major_version: None,
        minor_version: None,
        image_type: kind,
        verified_installable: false,
    }
}

#[test]
fn decrypts_the_documented_password() {
    let r = decrypt_password(&[0xCB, 0xC5, 0xD9, 0xD8], 0xAA);
    assert!(!r.is_empty());
    assert_eq!(r, "aosr");
}

#[test]
fn xor_with_the_same_key_round_trips() {
    for key in [0xAAu8, 0x55, 0x00, 0x5A] {
        let text = "Passw0rd 12";
        let enc: Vec<u8> = text.bytes().map(|b| b ^ key).collect();
        if text.bytes().all(|b| b != key) {
            assert_eq!(decrypt_password(&enc, key), text);
        }
    }
}

#[test]
fn utf16_bom_trailing_zeros_and_odd_byte() {
    assert_eq!(decode_utf16le(&[0xFF, 0xFE, 0x3C, 0x00, 0x41, 0x00, 0x00, 0x00]).unwrap(), "<A");
    assert_eq!(decode_utf16le(&[0x41, 0x00, 0x42]).unwrap(), "A");
    // a surrogate pair is one character, a lone surrogate is invalid
    assert_eq!(decode_utf16le(&[0x3D, 0xD8, 0x00, 0xDE]).unwrap(), "\u{1F600}");
    assert_eq!(decode_utf16le(&[0x00, 0xDE, 0x41, 0x00]).unwrap_err(), WimError::Utf16Decode);
}

#[test]
fn install_blocked_only_when_pe_is_needed_and_missing() {
    let mut a = app(false);
    a.target.partitions = vec![part("C:", true, PartitionStyle::GPT, 0, 3)];
    a.target.selected_partition = Some(0);
    assert!(a.install_blocked(false, false));
    assert!(!a.install_blocked(false, true));
    assert!(!a.install_blocked(true, false));
    a.target.partitions = vec![part("D:", false, PartitionStyle::GPT, 0, 4)];
    assert!(!a.install_blocked(false, false));
}

#[test]
fn default_volume_choice() {
    let vols = vec![
        vol("Windows PE", WimImageType::WindowsPE),
        vol("Windows 11 Pro", WimImageType::StandardInstall),
        vol("Windows 11 Home", WimImageType::StandardInstall),
    ];
    assert_eq!(App::default_volume(&vols, Some(2)), Some(2));
    assert_eq!(App::default_volume(&vols, Some(0)), Some(1));
    assert_eq!(App::default_volume(&vols, None), Some(1));
    assert_eq!(App::default_volume(&vols, Some(9)), Some(1));
    let pe_only = vec![vol("Windows PE", WimImageType::WindowsPE), vol("Setup", WimImageType::WindowsPE)];
    assert_eq!(App::default_volume(&pe_only, None), Some(1));
    assert_eq!(App::default_volume(&pe_only, Some(0)), Some(0));
    assert_eq!(App::default_volume(&Vec::new(), Some(4)), Some(4));
}

#[test]
fn direct_install_starts_with_the_target_layout() {
    let mut a = app(true);
    a.target.partitions = vec![
        part("C:", false, PartitionStyle::GPT, 0, 2),
        part("D:", false, PartitionStyle::MBR, 2, 3),
    ];
    a.install.target_partition = "D:".to_string();
    a.install.image_path = "E:\\sources\\install.wim".to_string();
    a.install.volume_index = 4;
    a.install.install_error = Some("old".to_string());
    let (job, _) = a.start_direct_install_thread(false, "X:\\Temp");
    assert_eq!(job.partition_style, PartitionStyle::MBR);
    assert_eq!(job.target_disk, Some(2));
    assert_eq!(job.target_part_no, Some(3));
    assert_eq!(job.volume_index, 4);
    assert_eq!(job.image_path, "E:\\sources\\install.wim");
    assert_eq!(job.backup_dir, "X:\\Temp\\LetRecovery_DriverBackup");
    assert_eq!(a.install.install_step, 1);
    assert_eq!(a.install.progress.current_step, "格式化分区");
    assert!(a.install.install_error.is_none());

    let mut b = app(true);
    b.install.target_partition = "Q:".to_string();
    let (job, _) = b.start_direct_install_thread(false, "X:\\Temp");
    assert_eq!(job.partition_style, PartitionStyle::Unknown);
    assert_eq!(job.target_disk, None);
}

#[test]
fn pe_install_starts_with_the_chosen_pe() {
    let mut a = app(false);
    a.install.target_partition = "C:".to_string();
    a.pe_choice = Some(PeEntry {
        display_name: "My PE".to_string(),
        filename: "pe.wim".to_string(),
        download_url: String::new(),
        md5: String::new(),
    });
    let (job, act) = a.start_pe_install_thread(false);
    assert_eq!(job.display_name, "My PE");
    assert!(matches!(act.work, PeWork::CheckPeExists(ref f) if f == "pe.wim"));
    assert_eq!(a.install.install_step, 1);
    assert_eq!(a.install.progress.current_step, "检查PE环境");
    let mut b = app(false);
    let (_, act) = b.start_pe_install_thread(false);
    assert!(!matches!(act.work, PeWork::CheckPeExists(_)));
}

#[test]
fn plain_repair_is_uefi_repair() {
    let bm = BootManager::new("B:");
    let (a, _) = bm.repair_boot("C:", false);
    let (b, _) = bm.repair_boot_advanced("C:", true, false);
    assert!(a.use_uefi && b.use_uefi);
    assert!(a.esp.is_none() && b.esp.is_none());
    assert_eq!(a.boot_letter, b.boot_letter);
    assert_eq!((a.boot_disk, a.boot_part), (b.boot_disk, b.boot_part));
}

#[test]
fn iso_outcomes_update_the_image_choice() {
    let mut a = app(false);
    a.image.iso_mounting = true;
    a.image.iso_mount_error = Some("old".to_string());
    let _ = a.check_iso_mount_status(Some(IsoMountResult::XpI386("F:\\I386".to_string())), None);
    assert!(a.image.iso_mount_error.is_none());
    assert!(a.image.image_volumes.is_empty());
    assert_eq!(a.image.selected_volume, Some(0));
    let mut b = app(false);
    b.image.iso_mounting = true;
    b.image.iso_mount_error = Some("old".to_string());
    let _ = b.check_iso_mount_status(Some(IsoMountResult::Success("F:\\sources\\install.wim".to_string())), None);
    assert!(b.image.iso_mount_error.is_none());
}

fn dp(n: u32, letter: Option<char>, offset: u64, size: u64) -> DiskPartitionInfo {
    DiskPartitionInfo {
        partition_number: n,
        drive_letter: letter,
        offset_bytes: offset,
        size_bytes: size,
        used_bytes: 0,
        free_bytes: 0,
        is_esp: false,
        is_msr: false,
        is_recovery: false,
        is_active: false,
    }
}

#[test]
fn huge_shrink_report_is_capped() {
    const GIB: u64 = 1024 * 1024 * 1024;
    let disks = vec![PhysicalDisk {
        disk_number: 0,
        size_bytes: 100 * GIB,
        partitions: vec![dp(1, Some('C'), GIB, 60 * GIB), dp(2, Some('D'), 61 * GIB, 39 * GIB)],
    }];
    let r = compute_expand_c_info(&disks, Some(u64::MAX));
    assert_eq!(r.no_move_max_mb, 60 * 1024);
    assert_eq!(r.max_size_mb, u64::MAX);
    assert!(r.can_expand);
    let r = compute_expand_c_info(&disks, Some(10 * 1024));
    assert_eq!(r.max_size_mb, 70 * 1024);
}

#[test]
fn win10_detection_steps() {
    assert!(matches!(Dism::win10_check_start("x.iso"), Win10Step::Done(Err(WimError::UnsupportedFormat))));
    assert!(matches!(Dism::win10_check_start("D:\\a.SWM"), Win10Step::ReadXml));
    assert!(matches!(Dism::win10_check_start("D:\\a.wim"), Win10Step::ReadNtdll));
    assert!(matches!(Dism::win10_check_start("D:\\a.esd"), Win10Step::ReadNtdll));
    assert!(matches!(Dism::win10_after_ntdll(Some(10)), Win10Step::Done(Ok(true))));
    assert!(matches!(Dism::win10_after_ntdll(Some(6)), Win10Step::Done(Ok(false))));
    assert!(matches!(Dism::win10_after_ntdll(None), Win10Step::ReadXml));
    assert!(matches!(Dism::win10_after_xml(Ok(10)), Win10Step::Done(Ok(true))));
    assert!(matches!(
        Dism::win10_after_xml(Err(WimError::VersionParse)),
        Win10Step::Done(Err(WimError::VersionParse))
    ));
    assert_eq!(Dism::is_win10_or_11_image_by_ntdll("x.iso", Some(10), Ok(10)), Err(WimError::UnsupportedFormat));
}

#[test]
fn driver_export_steps() {
    let outside_pe = Dism::new(false);
    match outside_pe.export_drivers_from_system(" c:", "E:\\drv", Some("C:"), true) {
        ExportWork::ApiOnline { destination } => assert_eq!(destination, "E:\\drv"),
        _ => panic!("the running system is exported online"),
    }
    match outside_pe.export_drivers_from_system("D:", "E:\\drv", Some("C:"), true) {
        ExportWork::ApiOffline { image_root, .. } => assert_eq!(image_root, "D:"),
        _ => panic!("another system is exported offline"),
    }
    match Dism::new(true).export_drivers_from_system("C:", "E:\\drv", Some("C:"), true) {
        ExportWork::ApiOffline { .. } => {}
        _ => panic!("inside PE every system is offline"),
    }
    match outside_pe.export_drivers_from_system("C:", "E:\\drv", Some("C:"), false) {
        ExportWork::Manual { system_partition, destination } => {
            assert_eq!(system_partition, "C:");
            assert_eq!(destination, "E:\\drv");
        }
        _ => panic!("without the API the drivers are copied by hand"),
    }
    assert!(matches!(Dism::export_after_api("C:", "E:\\drv", Ok(12)), ExportWork::Finish(Ok(()))));
    assert!(matches!(Dism::export_after_api("C:", "E:\\drv", Err("x".to_string())), ExportWork::Manual { .. }));
    assert!(matches!(Dism::export_after_manual(Ok(3)), ExportWork::Finish(Ok(()))));
    match Dism::export_after_manual(Err(ManualExportError::ManagerInit("no".to_string()))) {
        ExportWork::Finish(Err(m)) => assert_eq!(m, "驱动管理器初始化失败: no"),
        _ => panic!("expected an error"),
    }
    match Dism::export_after_manual(Err(ManualExportError::Export("denied".to_string()))) {
        ExportWork::Finish(Err(m)) => assert_eq!(m, "denied"),
        _ => panic!("expected an error"),
    }
}

#[test]
fn copy_log_trimmability() {
    assert!(is_trimmable("short log\n"));
    assert!(is_trimmable(&"a".repeat(100_001)));
    let wide = format!("a{}", "中".repeat(34_000));
    assert!(!is_trimmable(&wide));
}
