use letrecovery::app_state::{BitLockerPartition, BitLockerUnlockMode, VolumeStatus};
use letrecovery::bcd::BootManager;
use letrecovery::bitlocker_manage::{
    BackupBitLockerDialog, BitLockerManageDialog, ManageEvents, ManageRequest, OperationResult,
};
use letrecovery::disk::{DiskPartitionInfo, PhysicalDisk};
use letrecovery::esp_on_disk::{
    boot_letter_unusable_message, boot_partition_assign_script, existing_partition_letter, SameDiskStep, SameDiskWork,
};
use letrecovery::iso::IsoMounter;
use letrecovery::tool_jobs::{
    driver_job_outcome, format_partition_display, get_message_color, hash_progress, hash_result,
    nvidia_uninstall_outcome, storage_driver_outcome, DriverBackupMode, MessageTone, NvidiaJob,
};
use letrecovery::tools_state::{NvidiaUninstallResult, ToolsState, WindowsPartitionInfo};

#[test]
fn new_cdrom_letter_comes_from_the_masks() {
    let mut cdrom = vec![false; 26];
    cdrom[5] = true; // F
    cdrom[6] = true; // G
    let before = 0b0000_1100u32; // C, D
    let after = before | (1 << 4) | (1 << 5) | (1 << 6); // E, F, G appear
    assert_eq!(IsoMounter::find_new_cdrom_drive(before, after, &cdrom), Some('F'));
    assert_eq!(IsoMounter::find_new_cdrom_drive(after, after, &cdrom), None);
    let mut a_cd = vec![false; 26];
    a_cd[0] = true;
    assert_eq!(IsoMounter::find_new_cdrom_drive(0, 1, &a_cd), None);
}

#[test]
fn install_media_and_images() {
    let files = IsoMounter::install_media_files("F:\\");
    assert_eq!(
        files,
        vec![
            "F:\\sources\\install.wim",
            "F:\\sources\\install.esd",
            "F:\\sources\\install.swm",
            "F:\\I386\\setupldr.bin",
            "F:\\AMD64\\setupldr.bin"
        ]
    );
    assert!(IsoMounter::is_windows_install_media(&vec![false, false, false, false, true]));
    assert!(!IsoMounter::is_windows_install_media(&vec![false; 5]));
    assert_eq!(IsoMounter::install_image_files("F:")[1], "F:\\sources\\install.esd");
    assert_eq!(
        IsoMounter::find_install_image_in_drive("F:", &vec![false, true, true]),
        Some("F:\\sources\\install.esd".to_string())
    );
    assert_eq!(IsoMounter::find_install_image_in_drive("F:", &vec![false, false, false]), None);
}

#[test]
fn xp_source_prefers_a_complete_amd64() {
    assert_eq!(IsoMounter::xp_source_files("G:\\")[1], "G:\\AMD64\\ntfs.sy_");
    // AMD64 complete and I386 complete: AMD64.
    assert_eq!(IsoMounter::xp_i386_dir("G:\\", &vec![true, true, false, true, true, false]), Some("G:\\AMD64".to_string()));
    // AMD64 loader only, I386 complete: I386.
    assert_eq!(IsoMounter::xp_i386_dir("G:", &vec![true, false, false, true, false, true]), Some("G:\\I386".to_string()));
    // Loaders only: AMD64 first.
    assert_eq!(IsoMounter::xp_i386_dir("G:", &vec![true, false, false, true, false, false]), Some("G:\\AMD64".to_string()));
    assert_eq!(IsoMounter::xp_i386_dir("G:", &vec![false, false, false, true, false, false]), Some("G:\\I386".to_string()));
    assert_eq!(IsoMounter::xp_i386_dir("G:", &vec![false, true, true, false, true, true]), None);
}

#[test]
fn esp_is_found_on_the_disk_of_the_windows_partition() {
    let bm = BootManager::new("D:\\bin");
    let (mut s, w) = bm.find_esp_on_same_disk("C:\\");
    assert!(matches!(w, SameDiskWork::Diskpart(ref sc) if sc == "select volume C:\ndetail volume\n"));
    let w = s.on_output(Ok("  Disk ###  Status\n* Disk 1    Online\n".to_string()));
    assert!(matches!(w, SameDiskWork::Diskpart(ref sc) if sc == "select disk 1\nlist partition\n"));
    let w = s.on_output(Ok(
        "  Partition ###  Type\n  Partition 1    Recovery\n  Partition 2    System\n  Partition 3    Primary\n".to_string(),
    ));
    assert!(matches!(w, SameDiskWork::FreeLetterS));
    let w = s.on_freed();
    assert!(matches!(w, SameDiskWork::Diskpart(ref sc) if sc == "select disk 1\nselect partition 2\nassign letter=S\n"));
    let w = s.on_output(Ok(String::new()));
    assert!(matches!(w, SameDiskWork::CheckS));
    let w = s.on_checked(true);
    assert!(matches!(w, SameDiskWork::Located(Ok(ref l)) if l == "S:"));
    assert_eq!(s.step, SameDiskStep::Done);
}

#[test]
fn esp_search_failures() {
    let bm = BootManager::new("D:\\bin");
    let (mut s, _) = bm.find_esp_on_same_disk("C:");
    let w = s.on_output(Ok("no such thing".to_string()));
    assert!(matches!(w, SameDiskWork::Located(Err(ref m)) if m == "无法确定分区所在磁盘"));
    let (mut s, _) = bm.find_esp_on_same_disk("C:");
    s.on_output(Ok("Disk 0".to_string()));
    let w = s.on_output(Ok("  Partition 1    Primary\n".to_string()));
    assert!(matches!(w, SameDiskWork::Located(Err(ref m)) if m == "未找到 ESP 分区"));
    let (mut s, _) = bm.find_esp_on_same_disk("C:");
    let w = s.on_output(Err("diskpart missing".to_string()));
    assert!(matches!(w, SameDiskWork::Located(Err(ref m)) if m == "diskpart missing"));
}

fn dp(n: u32, letter: Option<char>) -> DiskPartitionInfo {
    DiskPartitionInfo {
        partition_number: n,
        drive_letter: letter,
        offset_bytes: 0,
        size_bytes: 0,
        used_bytes: 0,
        free_bytes: 0,
        is_esp: false,
        is_msr: false,
        is_recovery: false,
        is_active: false,
    }
}

#[test]
fn boot_partition_letters() {
    let disks = vec![
        PhysicalDisk { disk_number: 0, size_bytes: 0, partitions: vec![dp(1, Some('c')), dp(2, None)] },
        PhysicalDisk { disk_number: 1, size_bytes: 0, partitions: vec![dp(1, Some('E'))] },
    ];
    assert_eq!(existing_partition_letter(&disks, 0, 1), Some("C:".to_string()));
    assert_eq!(existing_partition_letter(&disks, 0, 2), None);
    assert_eq!(existing_partition_letter(&disks, 1, 1), Some("E:".to_string()));
    assert_eq!(existing_partition_letter(&disks, 2, 1), None);
    assert_eq!(boot_partition_assign_script(0, 2, 'T'), "select disk 0\r\nselect partition 2\r\nassign letter=T\r\n");
    assert_eq!(boot_letter_unusable_message(0, 2, 'T'), "引导分区 磁盘0:分区2 盘符 T: 不可用");
}

fn blp(letter: &str, status: VolumeStatus) -> BitLockerPartition {
    BitLockerPartition { letter: letter.to_string(), label: String::new(), total_size_mb: 0, status, protection_method: String::new() }
}

fn no_events() -> ManageEvents {
    ManageEvents { partitions: None, unlock: None, decrypt: None, recovery: None, protect: None }
}

#[test]
fn bitlocker_manage_requests_need_a_choice() {
    let mut d = BitLockerManageDialog::new();
    assert!(d.start_bitlocker_manage_unlock().is_none());
    assert_eq!(d.message, "请先选择要解锁的分区");
    assert!(d.start_bitlocker_manage_decrypt().is_none());
    assert_eq!(d.message, "请先选择要解密的分区");
    d.selected = Some("D:".to_string());
    d.mode = BitLockerUnlockMode::RecoveryKey;
    d.recovery_key = "111111-222222".to_string();
    match d.start_bitlocker_manage_unlock() {
        Some(ManageRequest::Unlock { drive, mode, secret }) => {
            assert_eq!(drive, "D:");
            assert_eq!(mode, BitLockerUnlockMode::RecoveryKey);
            assert_eq!(secret, "111111-222222");
        }
        _ => panic!("expected an unlock"),
    }
    assert!(d.loading);
    assert_eq!(d.message, "正在解锁...");
    assert!(d.start_bitlocker_manage_decrypt().is_none());
    d.loading = false;
    assert!(matches!(d.start_bitlocker_manage_suspend(), Some(ManageRequest::Suspend(ref x)) if x == "D:"));
    assert_eq!(d.message, "正在挂起保护...");
    d.loading = false;
    assert!(matches!(d.start_bitlocker_manage_resume(), Some(ManageRequest::Resume(_))));
    assert_eq!(d.message, "正在恢复保护...");
    d.loading = false;
    d.recovery_display = Some("old".to_string());
    assert!(matches!(d.start_bitlocker_manage_get_recovery(), Some(ManageRequest::GetRecoveryKey(_))));
    assert!(d.recovery_display.is_none());
}

#[test]
fn bitlocker_manage_results() {
    let mut d = BitLockerManageDialog::new();
    assert!(d.start_load_bitlocker_manage_partitions());
    assert!(!d.start_load_bitlocker_manage_partitions());
    d.selected = Some("E:".to_string());
    let mut ev = no_events();
    ev.partitions = Some(vec![blp("D:", VolumeStatus::EncryptedLocked), blp("E:", VolumeStatus::EncryptedUnlocked)]);
    assert!(!d.check_bitlocker_manage_async_operations(ev));
    assert_eq!(d.selected, Some("E:".to_string()));
    assert_eq!(d.partitions.len(), 2);
    assert!(!d.partitions_loading);

    let mut ev = no_events();
    ev.partitions = Some(vec![blp("F:", VolumeStatus::EncryptedLocked)]);
    d.check_bitlocker_manage_async_operations(ev);
    assert_eq!(d.selected, Some("F:".to_string()));

    d.loading = true;
    d.password = "pw".to_string();
    let mut ev = no_events();
    ev.unlock = Some(OperationResult { letter: "F:".to_string(), success: true, message: String::new() });
    assert!(d.check_bitlocker_manage_async_operations(ev));
    assert_eq!(d.message, "F: 解锁成功");
    assert!(d.password.is_empty());
    assert!(!d.loading);
    assert!(d.partitions_loading);
    assert!(d.partitions.is_empty());

    let mut ev = no_events();
    ev.decrypt = Some(OperationResult { letter: "F:".to_string(), success: false, message: "busy".to_string() });
    assert!(!d.check_bitlocker_manage_async_operations(ev));
    assert_eq!(d.message, "F: 解密失败: busy");

    let mut ev = no_events();
    ev.recovery = Some(Ok("123-456".to_string()));
    d.check_bitlocker_manage_async_operations(ev);
    assert_eq!(d.recovery_display, Some("123-456".to_string()));
    assert_eq!(d.message, "已读取恢复密钥");

    let mut ev = no_events();
    ev.protect = Some(Err("denied".to_string()));
    d.check_bitlocker_manage_async_operations(ev);
    assert_eq!(d.message, "操作失败: denied");
}

#[test]
fn backup_unlock_moves_through_locked_partitions() {
    let mut d = BackupBitLockerDialog {
        partitions: vec![
            blp("D:", VolumeStatus::EncryptedLocked),
            blp("E:", VolumeStatus::EncryptedUnlocked),
            blp("F:", VolumeStatus::EncryptedLocked),
        ],
        current: None,
        loading: false,
        message: String::new(),
        mode: BitLockerUnlockMode::Password,
        password: "pw".to_string(),
        recovery_key: String::new(),
    };
    assert!(d.start_backup_bitlocker_unlock().is_none());
    assert_eq!(d.message, "请先选择要解锁的分区");
    d.select_next_backup_bitlocker_partition();
    assert_eq!(d.current, Some("D:".to_string()));
    assert!(matches!(d.start_backup_bitlocker_unlock(), Some(ManageRequest::Unlock { ref secret, .. }) if secret == "pw"));
    d.check_backup_bitlocker_unlock_result(Some(OperationResult {
        letter: "D:".to_string(),
        success: true,
        message: String::new(),
    }));
    assert_eq!(d.message, "D: 解锁成功");
    assert_eq!(d.partitions[0].status, VolumeStatus::EncryptedUnlocked);
    assert!(d.password.is_empty());
    assert_eq!(d.current, Some("F:".to_string()));
    d.check_backup_bitlocker_unlock_result(Some(OperationResult {
        letter: "F:".to_string(),
        success: false,
        message: "wrong".to_string(),
    }));
    assert_eq!(d.message, "F: 解锁失败: wrong");
    assert_eq!(d.current, Some("F:".to_string()));
    d.skip_current_backup_bitlocker_partition();
    assert_eq!(d.message, "已跳过分区 F:");
    assert_eq!(d.partitions.len(), 2);
    assert_eq!(d.current, None);
}

#[test]
fn tool_job_starts_and_outcomes() {
    let mut t = ToolsState::new();
    assert!(t.driver_backup.start_driver_backup_action("", Some("C:"), DriverBackupMode::Export).is_none());
    assert_eq!(t.driver_backup.message, "请指定目录路径");
    assert!(t.driver_backup.start_driver_backup_action("D:\\drv", None, DriverBackupMode::Export).is_none());
    assert_eq!(t.driver_backup.message, "请选择系统分区");
    let j = t.driver_backup.start_driver_backup_action("D:\\drv", Some("C:"), DriverBackupMode::Import).unwrap();
    assert_eq!(t.driver_backup.message, "正在导入驱动，请稍候...");
    assert!(t.driver_backup.loading);
    assert_eq!(driver_job_outcome(&j, false, Ok(())), Err("驱动目录不存在: D:\\drv".to_string()));
    assert_eq!(driver_job_outcome(&j, true, Ok(())), Ok("驱动导入成功！".to_string()));
    let e = t.driver_backup.start_driver_backup_action("D:\\drv", Some("C:"), DriverBackupMode::Export).unwrap();
    assert_eq!(driver_job_outcome(&e, true, Ok(())), Ok("驱动导出成功: C: -> D:\\drv".to_string()));
    assert_eq!(driver_job_outcome(&e, true, Err("x".to_string())), Err("驱动导出失败: x".to_string()));

    assert!(t.import_storage_driver.start_import_storage_driver(Some("C:"), "D:\\d\\storage_controller", false).is_none());
    assert_eq!(t.import_storage_driver.message, "驱动目录不存在: D:\\d\\storage_controller");
    assert!(t.import_storage_driver.start_import_storage_driver(Some("C:"), "D:\\s", true).is_some());
    assert_eq!(storage_driver_outcome(Err("e".to_string())), Err("驱动导入失败: e".to_string()));

    assert!(t.time_sync.start_time_sync());
    assert!(!t.time_sync.start_time_sync());
    assert_eq!(t.time_sync.message, "正在连接NTP服务器...");

    assert!(t.appx.start_remove_appx(&vec!["a".to_string()]).is_none());
    assert_eq!(t.appx.message, "请先选择目标分区");
    t.appx.target = Some("C:".to_string());
    assert!(t.appx.start_remove_appx(&vec![]).is_none());
    assert_eq!(t.appx.message, "请先选择要移除的应用");
    let (target, apps) = t.appx.start_remove_appx(&vec!["a".to_string(), "b".to_string()]).unwrap();
    assert_eq!(target, "C:");
    assert_eq!(apps, vec!["a".to_string(), "b".to_string()]);

    let job = t.batch_format.start_batch_format(&vec!["E:".to_string()]).unwrap();
    assert_eq!(job.label, "新加卷");
    assert_eq!(job.file_system, "NTFS");
    assert!(t.batch_format.start_batch_format(&vec![]).is_none());

    assert!(t.nvidia.start_nvidia_uninstall(None).is_none());
    assert_eq!(t.nvidia.message, "请先选择目标系统");
    assert!(matches!(t.nvidia.start_nvidia_uninstall(Some("__CURRENT__")), Some(NvidiaJob::Online)));
    t.nvidia.loading = false;
    assert!(matches!(t.nvidia.start_nvidia_uninstall(Some("D:")), Some(NvidiaJob::Offline(ref x)) if x == "D:"));
    let r = nvidia_uninstall_outcome(Err("no tool".to_string()));
    assert!(!r.success);
    assert_eq!(r.message, "卸载失败: no tool");
    let ok = nvidia_uninstall_outcome(Ok(NvidiaUninstallResult {
        success: true,
        message: "done".to_string(),
        needs_reboot: true,
        uninstalled_count: 2,
        failed_count: 0,
    }));
    assert!(ok.needs_reboot);
    assert_eq!(ok.uninstalled_count, 2);
}

#[test]
fn hash_jobs() {
    let mut t = ToolsState::new();
    assert!(t.hash_verify.start_hash_verify("", "", true).is_none());
    assert!(t.hash_verify.start_hash_verify("D:\\x.iso", "", false).is_none());
    let r = t.hash_verify.result.as_ref().unwrap();
    assert_eq!(r.error, Some("文件不存在".to_string()));
    let (p, e) = t.hash_verify.start_hash_verify("D:\\x.iso", "ABC", true).unwrap();
    assert_eq!((p.as_str(), e.as_str()), ("D:\\x.iso", "ABC"));
    assert_eq!(t.hash_verify.progress, Some(0));
    assert!(t.hash_verify.start_hash_verify("D:\\x.iso", "ABC", true).is_none());
    assert_eq!(hash_progress(50, 200), 25);
    assert_eq!(hash_progress(500, 200), 100);
    assert_eq!(hash_progress(5, 0), 0);
    let ok = hash_result("D:\\x.iso", 10, Ok("abc".to_string()), "  ", true);
    assert_eq!(ok.matched, None);
    assert_eq!(ok.sha256, "abc");
    let cmp = hash_result("D:\\x.iso", 10, Ok("abc".to_string()), "ABC", false);
    assert_eq!(cmp.matched, Some(false));
    let bad = hash_result("D:\\x.iso", 10, Err("io".to_string()), "ABC", true);
    assert_eq!(bad.error, Some("读取/计算失败: io".to_string()));
    assert!(bad.expected.is_empty());
}

#[test]
fn partition_display_and_message_tone() {
    let ps = vec![WindowsPartitionInfo {
        letter: "C:".to_string(),
        windows_version: "Windows 10".to_string(),
        architecture: "x64".to_string(),
    }];
    assert_eq!(format_partition_display(&ps, "C:"), "C: [Windows 10] [x64]");
    assert_eq!(format_partition_display(&ps, "D:"), "D:");
    assert_eq!(get_message_color("驱动导入成功！"), MessageTone::Success);
    assert_eq!(get_message_color("驱动目录不存在: x"), MessageTone::Failure);
    assert_eq!(get_message_color("正在导入驱动..."), MessageTone::Neutral);
}
