use letrecovery::bcd::BootManager;
use letrecovery::esp::{esp_candidates, EspAction, EspError, EspEvent, EspSearch};
use letrecovery::repair::{BootRepair, RepairAction, RepairError, RepairEvent};

fn expect_run(a: &RepairAction) -> (Vec<String>, String, Vec<String>) {
    match a {
        RepairAction::Run { create_dirs, command } => (create_dirs.clone(), command.program.clone(), command.args.clone()),
        _ => panic!("expected a command"),
    }
}

fn strs(v: &[&str]) -> Vec<String> {
    v.iter().map(|s| s.to_string()).collect()
}

#[test]
fn uefi_repair_falls_back_and_copies_boot_file() {
    let bm = BootManager::new("D:\\LR\\bin");
    let (mut job, first) = bm.repair_boot("C:", false);
    assert!(matches!(first, RepairAction::CheckDir(ref d) if d == "C:\\Windows"));
    assert!(matches!(job.advance(RepairEvent::WindowsDir(true)), RepairAction::FindEsp));
    let a = job.advance(RepairEvent::Esp(Some("S:".to_string())));
    let (dirs, prog, args) = expect_run(&a);
    assert_eq!(dirs, strs(&["S:\\EFI\\Microsoft", "S:\\EFI\\Boot"]));
    assert_eq!(prog, "D:\\LR\\bin\\bcdboot.exe");
    assert_eq!(args, strs(&["C:\\Windows", "/s", "S:", "/f", "UEFI", "/l", "zh-cn"]));
    let a = job.advance(RepairEvent::Command { success: false, stderr: "e1".to_string() });
    assert_eq!(expect_run(&a).2, strs(&["C:\\Windows", "/s", "S:", "/f", "ALL", "/l", "zh-cn"]));
    let a = job.advance(RepairEvent::Command { success: true, stderr: String::new() });
    match a {
        RepairAction::CheckFiles { bootmgfw, bootx64 } => {
            assert_eq!(bootmgfw, "S:\\EFI\\Microsoft\\Boot\\bootmgfw.efi");
            assert_eq!(bootx64, "S:\\EFI\\Boot\\bootx64.efi");
        }
        _ => panic!("expected a file check"),
    }
    let a = job.advance(RepairEvent::Files { bootmgfw: true, bootx64: false });
    assert!(matches!(a, RepairAction::Copy { .. }));
    assert!(matches!(job.advance(RepairEvent::Done), RepairAction::Finish(Ok(()))));
}

#[test]
fn uefi_repair_gives_up_after_three_attempts() {
    let bm = BootManager::new("B:");
    let (mut job, _) = bm.repair_boot("D:", false);
    job.advance(RepairEvent::WindowsDir(true));
    job.advance(RepairEvent::Esp(Some("S:".to_string())));
    job.advance(RepairEvent::Command { success: false, stderr: "a".to_string() });
    let a = job.advance(RepairEvent::Command { success: false, stderr: "b".to_string() });
    assert_eq!(expect_run(&a).2, strs(&["D:\\Windows", "/s", "S:", "/l", "zh-cn"]));
    match job.advance(RepairEvent::Command { success: false, stderr: "c".to_string() }) {
        RepairAction::Finish(Err(e)) => {
            assert_eq!(e, RepairError::UefiFailed("c".to_string()));
            assert_eq!(e.message(), "UEFI 引导修复失败: c");
        }
        _ => panic!("expected failure"),
    }
}

#[test]
fn uefi_repair_without_esp_lets_bcdboot_choose() {
    let bm = BootManager::new("B:");
    let (mut job, _) = bm.repair_boot("C:", false);
    job.advance(RepairEvent::WindowsDir(true));
    let a = job.advance(RepairEvent::Esp(None));
    assert_eq!(expect_run(&a).2, strs(&["C:\\Windows", "/f", "UEFI", "/l", "zh-cn"]));
    match job.advance(RepairEvent::Command { success: false, stderr: "x".to_string() }) {
        RepairAction::Finish(Err(e)) => assert_eq!(e.message(), "引导修复失败: x"),
        _ => panic!("expected failure"),
    }
}

#[test]
fn repair_stops_without_windows_directory() {
    let bm = BootManager::new("B:");
    let (mut job, _) = bm.repair_boot_advanced("E:", false, false);
    match job.advance(RepairEvent::WindowsDir(false)) {
        RepairAction::Finish(Err(e)) => assert_eq!(e.message(), "Windows 目录不存在: E:\\Windows"),
        _ => panic!("expected failure"),
    }
}

#[test]
fn legacy_repair_writes_boot_sector_and_activates() {
    let bm = BootManager::new("D:\\LR\\bin");
    let (mut job, _) = bm.repair_boot_advanced("C:", false, false);
    assert!(matches!(job.advance(RepairEvent::WindowsDir(true)), RepairAction::FindLegacyTarget));
    let a = job.advance(RepairEvent::LegacyTarget(Some(("S:".to_string(), 0, 1))));
    assert_eq!(expect_run(&a).2, strs(&["C:\\Windows", "/s", "S:", "/f", "BIOS", "/l", "zh-cn"]));
    match job.advance(RepairEvent::Command { success: true, stderr: String::new() }) {
        RepairAction::RunIfPresent(c) => {
            assert_eq!(c.program, "D:\\LR\\bin\\bootsect.exe");
            assert_eq!(c.args, strs(&["/nt60", "S:", "/force", "/mbr"]));
        }
        _ => panic!("expected bootsect"),
    }
    match job.advance(RepairEvent::Done) {
        RepairAction::Diskpart(s) => assert_eq!(s, "select disk 0\r\nselect partition 1\r\nactive\r\n"),
        _ => panic!("expected diskpart"),
    }
    assert!(matches!(job.advance(RepairEvent::Done), RepairAction::Finish(Ok(()))));
}

#[test]
fn legacy_repair_without_target_uses_windows_partition() {
    let bm = BootManager::new("B:");
    let (mut job, _) = bm.repair_boot_advanced("C:\\", false, false);
    job.advance(RepairEvent::WindowsDir(true));
    let a = job.advance(RepairEvent::LegacyTarget(None));
    assert_eq!(expect_run(&a).2, strs(&["C:\\\\Windows", "/s", "C:\\", "/f", "BIOS", "/l", "zh-cn"]));
    let a = job.advance(RepairEvent::Command { success: false, stderr: "1".to_string() });
    assert_eq!(expect_run(&a).2, strs(&["C:\\\\Windows", "/f", "BIOS", "/l", "zh-cn"]));
    let a = job.advance(RepairEvent::Command { success: false, stderr: "2".to_string() });
    assert_eq!(expect_run(&a).2, strs(&["C:\\\\Windows", "/l", "zh-cn"]));
    let a = job.advance(RepairEvent::Command { success: true, stderr: String::new() });
    assert!(matches!(a, RepairAction::RunIfPresent(_)));
    match job.advance(RepairEvent::Done) {
        RepairAction::Diskpart(s) => assert_eq!(s, "select volume C\r\nactive\r\n"),
        _ => panic!("expected diskpart"),
    }
}

#[test]
fn custom_script_success_ends_repair() {
    let bm = BootManager::new("B:");
    let (mut job, _) = bm.repair_boot_advanced("C:", false, true);
    assert!(matches!(job.advance(RepairEvent::WindowsDir(true)), RepairAction::RunScript { esp: None }));
    assert!(matches!(job.advance(RepairEvent::Script(true)), RepairAction::Finish(Ok(()))));
}

#[test]
fn failed_custom_script_falls_back() {
    let bm = BootManager::new("B:");
    let (mut job, _) = bm.repair_boot("C:", true);
    assert!(matches!(job.advance(RepairEvent::WindowsDir(true)), RepairAction::FindEsp));
    match job.advance(RepairEvent::Esp(Some("S:".to_string()))) {
        RepairAction::RunScript { esp } => assert_eq!(esp.as_deref(), Some("S:")),
        _ => panic!("expected the script"),
    }
    assert!(matches!(job.advance(RepairEvent::Script(false)), RepairAction::FindEsp));
}

#[test]
fn program_that_cannot_start_stops_repair() {
    let (mut job, _) = BootRepair::new("C:", true, false, "bcdboot.exe", "B:");
    job.advance(RepairEvent::WindowsDir(true));
    job.advance(RepairEvent::Esp(None));
    match job.advance(RepairEvent::CommandError("无法启动".to_string())) {
        RepairAction::Finish(Err(e)) => assert_eq!(e, RepairError::Command("无法启动".to_string())),
        _ => panic!("expected failure"),
    }
}

const LIST: &str = "  Partition ###  Type              Size     Offset\n  -------------  ----------------  -------  -------\n  Partition 1    System             100 MB  1024 KB\n  Partition 2    Reserved            16 MB   101 MB\n  Partition 3    Primary            100 GB   117 MB\n";

#[test]
fn esp_candidates_in_listing() {
    assert_eq!(esp_candidates(LIST), vec![1]);
    assert_eq!(esp_candidates("  分区 4    系统  100 MB\n  Partition 7 System\n"), vec![4, 7]);
    assert!(esp_candidates("no partitions").is_empty());
}

#[test]
fn esp_search_through_diskpart() {
    let bm = BootManager::new("B:");
    let (mut s, first) = bm.find_efi_partition();
    assert!(matches!(first, EspAction::CheckPath(ref p) if p == "S:\\EFI"));
    match s.advance(EspEvent::Exists(false)) {
        EspAction::Run(c) => {
            assert_eq!(c.program, "mountvol");
            assert_eq!(c.args, strs(&["S:", "/s"]));
        }
        _ => panic!("expected mountvol"),
    }
    match s.advance(EspEvent::Ran(false)) {
        EspAction::Diskpart(sc) => assert_eq!(sc, "select disk 0\nlist partition\n"),
        _ => panic!("expected a listing"),
    }
    match s.advance(EspEvent::Output(LIST.to_string())) {
        EspAction::Diskpart(sc) => assert_eq!(sc, "select disk 0\nselect partition 1\nassign letter=S\n"),
        _ => panic!("expected an assignment"),
    }
    assert!(matches!(s.advance(EspEvent::Output(String::new())), EspAction::CheckPath(ref p) if p == "S:\\"));
    match s.advance(EspEvent::Exists(true)) {
        EspAction::Finish(Ok(l)) => assert_eq!(l, "S:"),
        _ => panic!("expected S:"),
    }
}

#[test]
fn esp_search_gives_up_after_four_disks() {
    let (mut s, _) = EspSearch::new();
    s.advance(EspEvent::Exists(false));
    s.advance(EspEvent::Ran(true));
    match s.advance(EspEvent::Exists(false)) {
        EspAction::Diskpart(sc) => assert_eq!(sc, "select disk 0\nlist partition\n"),
        _ => panic!("expected a listing"),
    }
    for d in 1..4 {
        match s.advance(EspEvent::Output(String::new())) {
            EspAction::Diskpart(sc) => assert_eq!(sc, format!("select disk {}\nlist partition\n", d)),
            _ => panic!("expected a listing"),
        }
    }
    match s.advance(EspEvent::Output(String::new())) {
        EspAction::Finish(Err(e)) => {
            assert_eq!(e, EspError::NotFound);
            assert_eq!(e.message(), "未找到 EFI 系统分区");
        }
        _ => panic!("expected not found"),
    }
}
