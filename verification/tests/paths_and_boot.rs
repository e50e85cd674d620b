use letrecovery::bcd::{
    assign_letter_script, bcd_status, find_disk_script, parse_current_boot_guid, parse_disk_number,
    parse_esp_partition, prepare_legacy_boot_partition, BcdOperation, BootError, BootManager, LegacyBootTarget,
};
use letrecovery::disk::{DiskPartitionInfo, PhysicalDisk};
use letrecovery::expand::{compute_expand_c_info, expand_c_shrink_candidate, format_gb_one_decimal, ExpandCDialogState};
use letrecovery::paths::{
    get_bin_dir, get_diskpart_scripts_dir, get_drivers_dir, get_pe_dir, get_temp_dir, get_tools_dir,
    get_uefiseven_dir, join,
};

#[test]
fn bundled_directories() {
    assert_eq!(join("D:\\LR\\", "bin"), "D:\\LR\\bin");
    assert_eq!(get_bin_dir("D:\\LR"), "D:\\LR\\bin");
    assert_eq!(get_pe_dir("D:\\LR"), "D:\\LR\\bin\\pe");
    assert_eq!(get_tools_dir("D:\\LR"), "D:\\LR\\bin");
    assert_eq!(get_drivers_dir("D:\\LR"), "D:\\LR\\bin\\drivers");
    assert_eq!(get_uefiseven_dir("D:\\LR"), "D:\\LR\\bin\\uefiseven");
    assert_eq!(get_temp_dir("D:\\LR"), "D:\\LR\\temp");
    assert_eq!(get_diskpart_scripts_dir("D:\\LR", true), "D:\\LR\\bin\\diskpart");
    assert_eq!(get_diskpart_scripts_dir("D:\\LR", false), "D:\\LR\\diskpart");
    assert_eq!(get_bin_dir(""), "bin");
}

#[test]
fn bcdedit_commands_and_status() {
    let bm = BootManager::new("D:\\LR\\bin");
    let c = bm.set_default_boot("{g}");
    assert_eq!(c.program, "D:\\LR\\bin\\bcdedit.exe");
    assert_eq!(c.args, vec!["/default", "{g}"]);
    assert_eq!(bm.set_timeout(5).args, vec!["/timeout", "5"]);
    assert_eq!(bm.delete_boot_entry("{g}").args, vec!["/delete", "{g}", "/f"]);
    assert_eq!(bcd_status(BcdOperation::SetDefault, true), Ok(()));
    let e = bcd_status(BcdOperation::SetTimeout, false).unwrap_err();
    assert_eq!(e, BootError::SetTimeoutFailed);
    assert_eq!(e.message(), "Failed to set boot timeout");
}

#[test]
fn current_boot_guid_from_enum() {
    let out = "Windows Boot Loader\n-------------------\nidentifier              {current}\ndevice                  partition=C:\n";
    assert_eq!(parse_current_boot_guid(out, "C:").unwrap(), "{current}");
    assert_eq!(parse_current_boot_guid(out, "D:").unwrap_err(), BootError::CurrentGuidNotFound);
}

#[test]
fn diskpart_parsing() {
    let detail = "  Disk ###  Status\n  --------  ------\n* Disk 1    Online\n";
    assert_eq!(parse_disk_number(detail), Some(1));
    assert_eq!(parse_disk_number("nothing"), None);
    let list = "  Partition 1    System   100 MB\n  Partition 2    Primary  50 GB\n";
    assert_eq!(parse_esp_partition(list), Some(1));
    assert_eq!(parse_esp_partition("  Partition 2    Primary  50 GB\n"), None);
    assert_eq!(find_disk_script("C:"), "select volume C\ndetail volume\n");
    assert_eq!(find_disk_script("C:\\"), "select volume C:\ndetail volume\n");
    assert_eq!(assign_letter_script(0, 2, 'T'), "select disk 0\r\nselect partition 2\r\nassign letter=T\r\n");
}

fn p(n: u32, letter: Option<char>, active: bool) -> DiskPartitionInfo {
    DiskPartitionInfo {
        partition_number: n,
        drive_letter: letter,
        offset_bytes: 0,
        size_bytes: 0,
        used_bytes: 0,
        free_bytes: 0,
        is_esp: false,
        is_msr: false,
        is_recovery: false,
        is_active: active,
    }
}

#[test]
fn legacy_boot_partition_choice() {
    let split = vec![PhysicalDisk { disk_number: 0, size_bytes: 0, partitions: vec![p(1, None, true), p(2, Some('c'), false)] }];
    assert_eq!(
        prepare_legacy_boot_partition(&split, "C:\\").unwrap(),
        LegacyBootTarget::SystemPartition { disk: 0, partition: 1 }
    );
    let single = vec![PhysicalDisk { disk_number: 3, size_bytes: 0, partitions: vec![p(1, Some('C'), true)] }];
    assert_eq!(
        prepare_legacy_boot_partition(&single, "C:").unwrap(),
        LegacyBootTarget::WindowsPartition { letter: "C:".to_string(), disk: 3, partition: 1 }
    );
    let e = prepare_legacy_boot_partition(&single, "D:").unwrap_err();
    assert_eq!(e.message(), "无法确定 D: 所在磁盘（IOCTL 未匹配到盘符）");
}

const GIB: u64 = 1024 * 1024 * 1024;

fn c_disk() -> Vec<PhysicalDisk> {
    let mut c = p(2, Some('C'), false);
    c.offset_bytes = GIB;
    c.size_bytes = 60 * GIB;
    c.used_bytes = 30 * GIB;
    c.free_bytes = 30 * GIB;
    vec![PhysicalDisk { disk_number: 0, size_bytes: 100 * GIB, partitions: vec![p(1, None, false), c] }]
}

#[test]
fn expand_plan_with_free_space_after_c() {
    let disks = c_disk();
    assert_eq!(expand_c_shrink_candidate(&disks), None);
    let r = compute_expand_c_info(&disks, None);
    assert!(r.found);
    assert!(r.can_expand);
    assert_eq!(r.current_size_mb, 60 * 1024);
    assert_eq!(r.used_mb, 30 * 1024);
    assert_eq!(r.max_size_mb, 99 * 1024);
    assert_eq!(r.no_move_max_mb, 99 * 1024);
}

#[test]
fn expand_plan_without_c() {
    let r = compute_expand_c_info(&Vec::new(), None);
    assert!(!r.found);
    assert_eq!(r.reason, "未找到当前系统 C 盘");
}

#[test]
fn gb_one_decimal_rounds_half_to_even() {
    assert_eq!(format_gb_one_decimal(0), "0.0");
    assert_eq!(format_gb_one_decimal(1024), "1.0");
    assert_eq!(format_gb_one_decimal(1126), "1.1");
    assert_eq!(format_gb_one_decimal(1075), "1.0");
    assert_eq!(format_gb_one_decimal(3 * 512 / 10 + 1024), "1.1");
}

#[test]
fn min_target_size() {
    let mut s = ExpandCDialogState::default();
    s.current_size_mb = 60 * 1024;
    s.used_mb = 30 * 1024;
    assert_eq!(s.min_target_mb(), 60 * 1024);
    s.used_mb = 60 * 1024;
    assert_eq!(s.min_target_mb(), 61 * 1024);
}
