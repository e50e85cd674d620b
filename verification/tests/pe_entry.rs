use letrecovery::pe::PeManager;
use letrecovery::pe_boot::{
    check_pe_locations, iso_boot_wim_candidates, iso_sdi_candidates, minimal_sdi, system_sdi_candidates, PeBootEvent,
    PeBootStep, PeBootWork,
};

fn args(w: &PeBootWork) -> Vec<String> {
    match w {
        PeBootWork::Run(c) => {
            assert_eq!(c.program, "D:\\bin\\bcdedit.exe");
            c.args.clone()
        }
        _ => panic!("expected a bcdedit run"),
    }
}

fn ok(s: &str) -> PeBootEvent {
    PeBootEvent::Ran(Ok(s.to_string()))
}

#[test]
fn pe_boot_entry_is_created_and_booted_once() {
    let pm = PeManager::new("D:\\bin");
    let (mut s, w) = pm.create_pe_boot_entry(
        "LetRecovery PE",
        "\\LetRecovery_PE\\boot.wim",
        "\\LetRecovery_PE\\boot.sdi",
        true,
        Some("{old-ram}\n\n{old-loader}\n"),
    );
    assert_eq!(args(&w), vec!["/delete", "{old-ram}", "/f"]);
    let w = s.advance(PeBootEvent::Ran(Err("ignored".to_string())));
    assert_eq!(args(&w), vec!["/delete", "{old-loader}", "/f"]);
    let w = s.advance(ok(""));
    assert_eq!(args(&w), vec!["/create", "/d", "LetRecovery PE RAM", "/device"]);
    let w = s.advance(ok("The entry {1111-2222-3333} was successfully created."));
    assert_eq!(args(&w), vec!["/set", "{1111-2222-3333}", "ramdisksdidevice", "partition=C:"]);
    let w = s.advance(ok(""));
    assert_eq!(args(&w), vec!["/set", "{1111-2222-3333}", "ramdisksdipath", "\\LetRecovery_PE\\boot.sdi"]);
    let w = s.advance(ok(""));
    assert_eq!(args(&w), vec!["/create", "/d", "LetRecovery PE", "/application", "osloader"]);
    let w = s.advance(ok("The entry {4444-5555-6666} was successfully created."));
    let device = "ramdisk=[C:]\\LetRecovery_PE\\boot.wim,{1111-2222-3333}";
    assert_eq!(args(&w), vec!["/set", "{4444-5555-6666}", "device", device]);
    let w = s.advance(ok(""));
    assert_eq!(args(&w), vec!["/set", "{4444-5555-6666}", "path", "\\windows\\system32\\boot\\winload.efi"]);
    for _ in 0..4 {
        s.advance(ok(""));
    }
    let w = s.advance(ok(""));
    assert_eq!(args(&w), vec!["/set", "{4444-5555-6666}", "ems", "no"]);
    let w = s.advance(ok(""));
    assert_eq!(args(&w), vec!["/displayorder", "{4444-5555-6666}", "/addfirst"]);
    let w = s.advance(ok(""));
    assert_eq!(args(&w), vec!["/timeout", "5"]);
    let w = s.advance(ok(""));
    match w {
        PeBootWork::WriteFile { path, content } => {
            assert_eq!(path, "C:\\LetRecovery_PE\\pe_guid.txt");
            assert_eq!(content, "{1111-2222-3333}\n{4444-5555-6666}");
        }
        _ => panic!("expected the GUID file"),
    }
    let w = s.advance(PeBootEvent::Written(Ok(())));
    assert!(matches!(w, PeBootWork::ReadFile(ref p) if p == "C:\\LetRecovery_PE\\pe_guid.txt"));
    let w = s.advance(PeBootEvent::Read(Some("{1111-2222-3333}\n{4444-5555-6666}".to_string())));
    assert_eq!(args(&w), vec!["/bootsequence", "{4444-5555-6666}"]);
    let w = s.advance(ok(""));
    assert!(matches!(w, PeBootWork::Finish(Ok(()))));
    assert_eq!(s.step, PeBootStep::Done);
}

#[test]
fn pe_boot_entry_failures() {
    let pm = PeManager::new("D:\\bin");
    let (mut s, w) = pm.create_pe_boot_entry("PE", "\\w", "\\s", false, None);
    assert_eq!(args(&w), vec!["/create", "/d", "PE RAM", "/device"]);
    let w = s.advance(ok("没有创建"));
    assert!(matches!(w, PeBootWork::Finish(Err(ref m)) if m == "无法从bcdedit输出中提取GUID: 没有创建"));
    let (mut s, _) = pm.create_pe_boot_entry("PE", "\\w", "\\s", false, None);
    let w = s.advance(PeBootEvent::Ran(Err("bcdedit missing".to_string())));
    assert!(matches!(w, PeBootWork::Finish(Err(ref m)) if m == "bcdedit missing"));
}

#[test]
fn pe_files() {
    let v = check_pe_locations("D:\\LR\\bin", "D:\\LR", Some("C:\\Users\\u\\Downloads"), "pe.wim");
    assert_eq!(
        v,
        vec![
            "D:\\LR\\bin\\pe\\pe.wim",
            "D:\\LR\\pe.wim",
            "D:\\LR\\PE\\pe.wim",
            "D:\\LR\\pe\\pe.wim",
            "C:\\Users\\u\\Downloads\\pe.wim"
        ]
    );
    assert_eq!(check_pe_locations("b", "e", None, "x.iso")[4], "x.iso");
    assert_eq!(iso_boot_wim_candidates("F:")[0], "F:\\sources\\boot.wim");
    assert_eq!(iso_sdi_candidates("F:")[2], "F:\\BOOT\\BOOT.SDI");
    assert_eq!(system_sdi_candidates()[1], "C:\\Windows\\Boot\\DVD\\EFI\\boot.sdi");
    let sdi = minimal_sdi();
    assert_eq!(sdi.len(), 512);
    assert_eq!(&sdi[..8], b"$SDI\x01\x00\x01\x00");
    assert!(sdi[8..].iter().all(|b| *b == 0));
}
