use letrecovery::app_state::{
    App, BootModeSelection, DriverAction, Environment, ImageInfoResult, ImageLoadAction, InstallAction,
    InstallProbe, IsoMountResult, Panel, PeEntry, VolumeStatus,
};
use letrecovery::disk::{Partition, PartitionStyle};
use letrecovery::dism::DismProgress;
use letrecovery::install::InstallMode;
use letrecovery::wim::{ImageInfo, WimImageType};

fn env(is_pe: bool) -> Environment {
    Environment { is_pe, advanced_options_enabled: false }
}

fn part(letter: &str, has_windows: bool, is_system: bool) -> Partition {
    Partition {
        letter: letter.to_string(),
        label: format!("{} label", letter),
        total_size_mb: 100 * 1024,
        free_size_mb: 50 * 1024,
        has_windows,
        is_system_partition: is_system,
        partition_style: PartitionStyle::GPT,
        disk_number: Some(0),
        partition_number: Some(1),
    }
}

fn vol(index: u32, name: &str, itype: &str, kind: WimImageType, major: Option<u16>) -> ImageInfo {
    ImageInfo {
        index,
        name: name.to_string(),
        size_bytes: 0,
        installation_type: itype.to_string(),
        major_version: major,
        minor_version: None,
        image_type: kind,
        verified_installable: false,
    }
}

fn probe(n: usize) -> InstallProbe {
    InstallProbe {
        bitlocker_available: true,
        needs_unlock: vec![false; n],
        status: vec![VolumeStatus::NotEncrypted; n],
        target_recovery_key: false,
        pe_file_exists: true,
        exe_dir: "D:\\LetRecovery".to_string(),
    }
}

#[test]
fn format_size_switches_to_gb() {
    assert_eq!(App::format_size(512), "512 MB");
    assert_eq!(App::format_size(1023), "1023 MB");
    assert_eq!(App::format_size(1024), "1.0 GB");
    assert_eq!(App::format_size(1536), "1.5 GB");
    assert_eq!(App::format_size(1075), "1.0 GB");
}

#[test]
fn actual_boot_mode_follows_disk_style() {
    assert_eq!(App::get_actual_boot_mode(BootModeSelection::Auto, PartitionStyle::MBR), "Legacy");
    assert_eq!(App::get_actual_boot_mode(BootModeSelection::Auto, PartitionStyle::GPT), "UEFI");
    assert_eq!(App::get_actual_boot_mode(BootModeSelection::Auto, PartitionStyle::Unknown), "UEFI");
    assert_eq!(App::get_actual_boot_mode(BootModeSelection::Legacy, PartitionStyle::GPT), "Legacy");
    assert_eq!(App::get_actual_boot_mode(BootModeSelection::UEFI, PartitionStyle::MBR), "UEFI");
}

#[test]
fn installable_images() {
    assert!(App::is_installable_image(&vol(1, "Windows 11 Pro", "Client", WimImageType::StandardInstall, Some(10))));
    assert!(!App::is_installable_image(&vol(1, "Windows 11 Pro", "Client", WimImageType::WindowsPE, Some(10))));
    assert!(!App::is_installable_image(&vol(1, "Microsoft Windows PE", "", WimImageType::Unknown, None)));
    assert!(!App::is_installable_image(&vol(1, "Anything", "WindowsPE", WimImageType::Unknown, None)));
    assert!(App::is_installable_image(&vol(1, "My backup", "", WimImageType::Unknown, None)));
    assert!(App::is_installable_image(&vol(1, "系统镜像", "", WimImageType::Unknown, None)));
    assert!(!App::is_installable_image(&vol(1, "Data", "", WimImageType::Unknown, None)));
    assert!(App::is_installable_image(&vol(1, "Data", "", WimImageType::Unknown, Some(6))));
    assert!(App::is_installable_image(&vol(1, "Data", "Server", WimImageType::Unknown, None)));
}

#[test]
fn unattend_option_lock() {
    let mut app = App::new(env(false));
    assert!(!app.is_unattend_option_disabled());
    app.target.partition_has_unattend = true;
    assert!(app.is_unattend_option_disabled());
    app.target.format_partition = true;
    assert!(!app.is_unattend_option_disabled());
    assert!(app.get_unattend_dependent_options_hint().starts_with("以下选项依赖无人值守配置"));
}

#[test]
fn options_follow_partition_with_windows() {
    let mut app = App::new(env(true));
    app.target.partitions = vec![part("C:", false, false), part("D:", true, false)];
    app.target.selected_partition = Some(0);
    app.update_install_options_for_partition();
    assert!(!app.target.format_partition && !app.target.repair_boot);
    app.target.selected_partition = Some(1);
    app.update_install_options_for_partition();
    assert!(app.target.format_partition && app.target.repair_boot);
}

#[test]
fn loading_an_iso_mounts_it() {
    let mut app = App::new(env(false));
    app.image.local_image_path = "E:\\Win11.ISO".to_string();
    app.image.xp_i386_source = Some("F:\\I386".to_string());
    match app.load_image_volumes() {
        ImageLoadAction::MountIso(p) => assert_eq!(p, "E:\\Win11.ISO"),
        _ => panic!("expected a mount"),
    }
    assert!(app.image.iso_mounting);
    assert!(app.image.xp_i386_source.is_none());
}

#[test]
fn loading_a_wim_reads_its_volumes() {
    let mut app = App::new(env(false));
    app.image.local_image_path = "E:\\install.wim".to_string();
    app.image.selected_volume = Some(2);
    match app.load_image_volumes() {
        ImageLoadAction::LoadImageInfo(p) => assert_eq!(p, "E:\\install.wim"),
        _ => panic!("expected a listing"),
    }
    assert!(app.image.image_info_loading);
    assert_eq!(app.image.selected_volume, None);
}

#[test]
fn loading_a_gho_has_one_volume() {
    let mut app = App::new(env(false));
    app.image.local_image_path = "E:\\sys.GHO".to_string();
    assert!(matches!(app.load_image_volumes(), ImageLoadAction::RefreshSourceUnattend));
    assert_eq!(app.image.selected_volume, Some(0));
}

#[test]
fn mounted_iso_then_volumes_select_first_installable() {
    let mut app = App::new(env(false));
    app.image.iso_mounting = true;
    let a = app.check_iso_mount_status(Some(IsoMountResult::Success("G:\\sources\\install.esd".to_string())), None);
    assert_eq!(a.load_image_info.as_deref(), Some("G:\\sources\\install.esd"));
    assert_eq!(app.image.local_image_path, "G:\\sources\\install.esd");
    assert!(!app.image.iso_mounting);
    assert!(app.image.image_info_loading);
    let vols = vec![
        vol(1, "Windows Setup Media", "", WimImageType::Unknown, None),
        vol(2, "Windows 10 Home", "Client", WimImageType::StandardInstall, Some(10)),
    ];
    let b = app.check_iso_mount_status(None, Some(ImageInfoResult::Success(vols)));
    assert!(b.refresh_source_unattend);
    assert!(!b.start_installation);
    assert_eq!(app.image.selected_volume, Some(1));
    assert!(!app.image.image_info_loading);
}

#[test]
fn xp_medium_becomes_the_source() {
    let mut app = App::new(env(true));
    app.image.iso_mounting = true;
    let a = app.check_iso_mount_status(Some(IsoMountResult::XpI386("F:\\I386".to_string())), None);
    assert!(a.refresh_source_unattend);
    assert_eq!(app.image.xp_i386_source.as_deref(), Some("F:\\I386"));
    assert_eq!(app.image.selected_volume, Some(0));
}

#[test]
fn easy_mode_missing_volume_is_reported() {
    let mut app = App::new(env(false));
    app.image.image_info_loading = true;
    app.image.easy_mode_pending_auto_start = true;
    app.install.volume_index = 6;
    let vols = vec![vol(1, "Windows 11 Home", "Client", WimImageType::StandardInstall, Some(10))];
    let a = app.check_iso_mount_status(None, Some(ImageInfoResult::Success(vols)));
    assert!(!a.start_installation);
    assert!(!app.image.easy_mode_pending_auto_start);
    assert_eq!(app.error_message.as_deref(), Some("未找到目标分卷 6，请手动选择"));
}

#[test]
fn easy_mode_found_volume_starts() {
    let mut app = App::new(env(false));
    app.image.image_info_loading = true;
    app.image.easy_mode_pending_auto_start = true;
    app.install.volume_index = 2;
    let vols = vec![
        vol(1, "Windows 11 Home", "Client", WimImageType::StandardInstall, Some(10)),
        vol(2, "Windows 11 Pro", "Client", WimImageType::StandardInstall, Some(10)),
    ];
    let a = app.check_iso_mount_status(None, Some(ImageInfoResult::Success(vols)));
    assert!(a.start_installation);
    assert_eq!(app.image.selected_volume, Some(1));
}

#[test]
fn failed_listing_is_reported() {
    let mut app = App::new(env(false));
    app.image.image_info_loading = true;
    app.check_iso_mount_status(None, Some(ImageInfoResult::Error("坏文件".to_string())));
    assert_eq!(app.image.iso_mount_error.as_deref(), Some("镜像信息加载失败: 坏文件"));
    assert_eq!(app.image.selected_volume, None);
}

#[test]
fn refresh_in_pe_selects_single_windows() {
    let mut app = App::new(env(true));
    let r = app.refresh_partitions(Some(vec![part("C:", false, false), part("D:", true, false)]));
    assert_eq!(app.target.selected_partition, Some(1));
    assert_eq!(r.as_deref(), Some("D:"));
    assert!(app.target.unattend_check_loading);
    // the same partition is not checked twice
    let again = app.start_unattend_check_for_partition(1);
    assert!(again.is_none());
}

#[test]
fn refresh_in_pe_with_two_windows_selects_nothing() {
    let mut app = App::new(env(true));
    app.target.partition_has_unattend = true;
    let r = app.refresh_partitions(Some(vec![part("C:", true, false), part("D:", true, false)]));
    assert_eq!(app.target.selected_partition, None);
    assert!(!app.target.partition_has_unattend);
    assert!(r.is_none());
}

#[test]
fn refresh_outside_pe_selects_system() {
    let mut app = App::new(env(false));
    app.target.unattended_install = false;
    let r = app.refresh_partitions(Some(vec![part("D:", false, false), part("C:", false, true)]));
    assert_eq!(app.target.selected_partition, Some(1));
    // no Windows there: no check, and the generated answer file is turned on
    assert!(r.is_none());
    assert!(app.target.unattended_install);
    assert_eq!(app.target.last_unattend_check_partition.as_deref(), Some("C:"));
}

#[test]
fn refresh_failure_changes_nothing() {
    let mut app = App::new(env(false));
    app.target.partitions = vec![part("C:", true, true)];
    app.target.selected_partition = Some(0);
    assert!(app.refresh_partitions(None).is_none());
    assert_eq!(app.target.partitions.len(), 1);
    assert_eq!(app.target.selected_partition, Some(0));
}

#[test]
fn start_without_target_does_nothing() {
    let mut app = App::new(env(false));
    assert!(matches!(app.start_installation(&probe(0)), InstallAction::Nothing));
    assert!(!app.install.is_installing);
}

#[test]
fn start_direct_install_in_pe() {
    let mut app = App::new(env(true));
    app.target.partitions = vec![part("C:", true, false)];
    app.target.selected_partition = Some(0);
    app.target.driver_action = DriverAction::AutoImport;
    app.image.local_image_path = "E:\\install.wim".to_string();
    app.image.image_volumes = vec![vol(4, "Windows 10 Pro", "Client", WimImageType::StandardInstall, Some(10))];
    app.image.selected_volume = Some(0);
    let r = app.start_installation(&probe(1));
    assert!(matches!(r, InstallAction::Begin));
    assert!(app.install.is_installing);
    assert_eq!(app.install.install_mode, InstallMode::Direct);
    assert_eq!(app.install.volume_index, 4);
    assert_eq!(app.install.target_partition, "C:");
    assert_eq!(app.install.image_path, "E:\\install.wim");
    assert!(app.install.options.export_drivers);
    assert_eq!(app.panel, Panel::InstallProgress);
}

#[test]
fn start_on_running_system_goes_through_pe_and_downloads_missing_pe() {
    let mut app = App::new(env(false));
    app.target.partitions = vec![part("C:", true, true)];
    app.target.selected_partition = Some(0);
    app.pe_choice = Some(PeEntry {
        display_name: "LetRecovery PE".to_string(),
        filename: "pe.wim".to_string(),
        download_url: "https://example.invalid/pe.wim".to_string(),
        md5: "00".to_string(),
    });
    let mut p = probe(1);
    p.pe_file_exists = false;
    let r = app.start_installation(&p);
    assert!(matches!(r, InstallAction::DownloadPe));
    assert_eq!(app.install.install_mode, InstallMode::ViaPE);
    assert!(!app.install.is_installing);
    assert_eq!(app.panel, Panel::DownloadProgress);
    let d = app.pending_download.as_ref().unwrap();
    assert_eq!(d.filename, "pe.wim");
    assert_eq!(d.save_dir, "D:\\LetRecovery\\bin\\pe");
}

#[test]
fn xp_medium_refuses_gpt_target() {
    let mut app = App::new(env(true));
    app.image.xp_i386_source = Some("F:\\I386".to_string());
    app.target.partitions = vec![part("C:", false, false)];
    app.target.selected_partition = Some(0);
    assert!(matches!(app.start_installation(&probe(1)), InstallAction::Nothing));
    assert!(app.error_message.as_deref().unwrap().contains("仅支持 Legacy/BIOS + MBR"));
    assert!(!app.install.is_installing);
}

#[test]
fn locked_partitions_open_unlock_dialog() {
    let mut app = App::new(env(false));
    app.target.partitions = vec![part("C:", true, true), part("D:", false, false), part("X:", false, false)];
    app.target.selected_partition = Some(1);
    let mut p = probe(3);
    p.needs_unlock = vec![true, true, true];
    p.status = vec![VolumeStatus::EncryptedLocked; 3];
    let locked = app.check_bitlocker_for_install(&p);
    let letters: Vec<&str> = locked.iter().map(|b| b.letter.as_str()).collect();
    assert_eq!(letters, vec!["D:", "C:"]);
    assert!(matches!(app.start_installation(&p), InstallAction::Nothing));
    assert!(app.unlock.show);
    assert_eq!(app.unlock.current.as_deref(), Some("D:"));
    assert!(app.unlock.continue_after);
}

#[test]
fn encrypted_target_without_key_asks_for_decryption() {
    let mut app = App::new(env(false));
    app.target.partitions = vec![part("C:", true, true), part("D:", false, false), part("E:", false, false)];
    app.target.selected_partition = Some(0);
    let mut p = probe(3);
    p.status = vec![VolumeStatus::EncryptedUnlocked, VolumeStatus::Decrypting, VolumeStatus::NotEncrypted];
    assert!(matches!(app.start_installation(&p), InstallAction::RequestDecryption));
    let reqs: Vec<(String, bool)> = app.install.pending_decrypt.iter().map(|q| (q.drive.clone(), q.send)).collect();
    assert_eq!(reqs, vec![("C:".to_string(), true), ("D:".to_string(), false)]);
    // the decrypt command for C: failed; D: is decrypting anyway
    let r = app.decryption_requested(&vec![false, true], &p);
    assert!(matches!(r, InstallAction::Begin));
    assert!(app.install.bitlocker_decryption_needed);
    assert_eq!(app.install.decrypting_partitions, vec!["D:".to_string()]);
    assert_eq!(app.install.install_step, 0);
}

#[test]
fn encrypted_target_with_key_needs_no_decryption() {
    let mut app = App::new(env(true));
    app.target.partitions = vec![part("C:", true, false)];
    app.target.selected_partition = Some(0);
    let mut p = probe(1);
    p.status = vec![VolumeStatus::EncryptedUnlocked];
    p.target_recovery_key = true;
    assert!(matches!(app.start_installation(&p), InstallAction::Begin));
    assert!(!app.install.bitlocker_decryption_needed);
}

#[test]
fn progress_reports_update_steps_and_reboot_once() {
    let mut app = App::new(env(true));
    app.install.install_mode = InstallMode::Direct;
    app.install.options.auto_reboot = true;
    let o = app.update_install_progress(&DismProgress { percentage: 50, status: "STEP:3:释放系统镜像".to_string() });
    assert!(o.keep_reading && !o.reboot);
    assert_eq!(app.install.install_step, 3);
    assert_eq!(app.install.progress.current_step, "释放系统镜像");
    assert_eq!(app.install.progress.total_progress, 50);
    let o = app.update_install_progress(&DismProgress { percentage: 100, status: "STEP:7:完成安装".to_string() });
    assert!(o.reboot);
    assert_eq!(app.install.progress.total_progress, 100);
    let o = app.update_install_progress(&DismProgress { percentage: 100, status: "STEP:7:完成安装".to_string() });
    assert!(!o.reboot);
}

#[test]
fn progress_reports_errors_and_decryption() {
    let mut app = App::new(env(false));
    app.install.decrypting_partitions = vec!["C:".to_string()];
    let o = app.update_install_progress(&DismProgress { percentage: 40, status: "DECRYPTING:正在解密: C: (60.0%)".to_string() });
    assert!(!o.keep_reading);
    assert_eq!(app.install.progress.current_step, "正在解密: C: (60.0%)");
    assert_eq!(app.install.progress.step_progress, 40);
    let o = app.update_install_progress(&DismProgress { percentage: 100, status: "DECRYPTION_COMPLETE".to_string() });
    assert!(!o.keep_reading);
    assert!(app.install.decrypting_partitions.is_empty());
    let o = app.update_install_progress(&DismProgress { percentage: 0, status: "ERROR:磁盘已满".to_string() });
    assert!(!o.keep_reading);
    assert_eq!(app.install.install_error.as_deref(), Some("磁盘已满"));
    assert_eq!(app.install.progress.current_step, "安装失败");
}
