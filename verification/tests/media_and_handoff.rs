use letrecovery::app_state::{App, Environment, IsoMountResult, PeEntry};
use letrecovery::diskpart::{hex8_upper, new_signature, signature_check, SignatureCheck};
use letrecovery::dism::{export_final_progress, export_session_image, Dism, DISM_ONLINE_IMAGE};
use letrecovery::expand_handoff::{ExpandHandoff, HandoffStep, HandoffWork};
use letrecovery::iso::IsoMounter;
use letrecovery::unattend_check::embedded_unattend_paths;
use letrecovery::wim::{image_volumes_from, parse_wim_xml, WimError};

fn app() -> App {
    App::new(Environment { is_pe: false, advanced_options_enabled: false })
}

fn pe() -> PeEntry {
    PeEntry {
        display_name: "LetRecovery PE".to_string(),
        filename: "pe.wim".to_string(),
        download_url: "http://example.invalid/pe.wim".to_string(),
        md5: String::new(),
    }
}

const XML: &str = "<WIM><IMAGE INDEX=\"1\"><NAME>Win</NAME></IMAGE></WIM>";

#[test]
fn mount_outcome_prefers_install_image() {
    let r = IsoMounter::mount_outcome(Ok("F:".to_string()), &vec![false, true, false], &vec![true; 6]);
    match r {
        IsoMountResult::Success(p) => assert_eq!(p, "F:\\sources\\install.esd"),
        _ => panic!("expected an install image"),
    }
}

#[test]
fn mount_outcome_falls_back_to_xp_source() {
    let r = IsoMounter::mount_outcome(Ok("F:".to_string()), &vec![false; 3], &vec![false, false, false, true, true, false]);
    match r {
        IsoMountResult::XpI386(d) => assert_eq!(d, "F:\\I386"),
        _ => panic!("expected an XP source"),
    }
}

#[test]
fn mount_outcome_reports_missing_image_and_mount_errors() {
    match IsoMounter::mount_outcome(Ok("F:".to_string()), &vec![false; 3], &vec![false; 6]) {
        IsoMountResult::Error(m) => assert_eq!(m, "ISO 中未找到 install.wim/esd"),
        _ => panic!("expected an error"),
    }
    match IsoMounter::mount_outcome(Err("挂载失败".to_string()), &vec![true; 3], &vec![true; 6]) {
        IsoMountResult::Error(m) => assert_eq!(m, "挂载失败"),
        _ => panic!("expected the mount error"),
    }
}

#[test]
fn iso_drive_is_first_media_from_d() {
    let mut media = vec![false; 26];
    media[2] = true; // C: is never considered
    assert_eq!(IsoMounter::find_iso_drive(&media), None);
    media[7] = true; // H:
    media[9] = true; // J:
    assert_eq!(IsoMounter::find_iso_drive(&media).as_deref(), Some("H:"));
}

#[test]
fn drives_to_eject_are_cdroms_with_sources() {
    let mut cdrom = vec![false; 26];
    let mut sources = vec![false; 26];
    cdrom[3] = true; // D: CD-ROM without sources
    cdrom[5] = true;
    sources[5] = true; // F:
    sources[6] = true; // G: not a CD-ROM
    cdrom[25] = true;
    sources[25] = true; // Z:
    cdrom[1] = true;
    sources[1] = true; // B: never considered
    assert_eq!(IsoMounter::iso_drives_to_eject(&cdrom, &sources), vec!['F', 'Z']);
}

#[test]
fn image_volumes_prefer_library_then_metadata() {
    let lib = parse_wim_xml(XML).unwrap();
    let meta = parse_wim_xml(XML).unwrap();
    assert_eq!(image_volumes_from(Ok(lib), Err(WimError::NoImages)).unwrap()[0].name, "Win");
    assert_eq!(image_volumes_from(Err("no dll".to_string()), Ok(meta)).unwrap().len(), 1);
    let e = image_volumes_from(Err("no dll".to_string()), Ok(Vec::new())).unwrap_err();
    assert!(e.starts_with("无法获取镜像信息：wimlib 打开文件失败。"));
    assert!(image_volumes_from(Err("no dll".to_string()), Err(WimError::NoImages)).is_err());
}

#[test]
fn dism_first_import_counts() {
    assert_eq!(Dism::import_drivers_offline_dism_first(7, Ok(())), Some((7, 0)));
    assert_eq!(Dism::import_drivers_offline_dism_first(0, Ok(())), Some((1, 0)));
    assert_eq!(Dism::import_drivers_offline_dism_first(7, Err("x".to_string())), None);
}

#[test]
fn embedded_unattend_probe() {
    let p = embedded_unattend_paths();
    assert_eq!(p.len(), 4);
    assert_eq!(p[0], "\\Windows\\Panther\\unattend.xml");
    assert_eq!(p[3], "\\unattend.xml");
    assert!(App::wim_has_embedded_unattend(Ok(true)));
    assert!(!App::wim_has_embedded_unattend(Ok(false)));
    assert!(!App::wim_has_embedded_unattend(Err("engine".to_string())));
}

#[test]
fn handoff_without_pe_stops() {
    let mut a = app();
    let (h, w) = a.start_expand_pe_handoff(Some("X:\\pe.wim".to_string()), 1);
    assert!(matches!(w, HandoffWork::Finish));
    assert_eq!(h.step, HandoffStep::Done);
    assert!(!a.tools.expand_c.state.executing);
    assert_eq!(a.tools.expand_c.state.message, "未选择 PE 环境，无法扩容");
    assert!(a.tools.expand_c.show);
}

#[test]
fn handoff_with_missing_pe_file_stops() {
    let mut a = app();
    a.pe_choice = Some(pe());
    let (_, w) = a.start_expand_pe_handoff(None, 1);
    assert!(matches!(w, HandoffWork::Finish));
    assert_eq!(a.tools.expand_c.state.message, "PE 文件不存在，无法扩容");
}

fn started(target: u64, max: u64) -> (App, ExpandHandoff, HandoffWork) {
    let mut a = app();
    a.pe_choice = Some(pe());
    a.tools.expand_c.state.target_size_mb = target;
    a.tools.expand_c.state.max_size_mb = max;
    let (h, w) = a.start_expand_pe_handoff(Some("X:\\pe.wim".to_string()), 2);
    (a, h, w)
}

#[test]
fn handoff_runs_to_reboot() {
    let (mut a, mut h, w) = started(80_000, 100_000);
    assert!(a.tools.expand_c.state.executing);
    assert_eq!(a.tools.expand_c.state.message, "正在准备扩容环境...");
    match w {
        HandoffWork::WriteConfig { target, data_partition, config } => {
            assert_eq!(target, "C:");
            assert_eq!(data_partition, "C:");
            assert_eq!(config.target_partition, "C:");
            assert_eq!(config.target_size_mb, 80_000);
            assert_eq!(config.wim_engine, 2);
        }
        _ => panic!("expected the plan to be written"),
    }
    match h.advance(&mut a.tools.expand_c.state, Ok(())) {
        HandoffWork::BootToPe { pe_path, display_name } => {
            assert_eq!(pe_path, "X:\\pe.wim");
            assert_eq!(display_name, "LetRecovery PE");
        }
        _ => panic!("expected the boot entry"),
    }
    match h.advance(&mut a.tools.expand_c.state, Ok(())) {
        HandoffWork::Reboot(c) => {
            assert_eq!(c.program, "shutdown");
            assert_eq!(c.args[4], "LetRecovery 即将重启进入 WinPE 进行无损扩容...");
        }
        _ => panic!("expected a restart"),
    }
    assert!(matches!(h.advance(&mut a.tools.expand_c.state, Ok(())), HandoffWork::Finish));
    assert_eq!(h.step, HandoffStep::Done);
    assert_eq!(a.tools.expand_c.state.message, "准备完成，即将重启进入 WinPE...");
    assert!(a.tools.expand_c.state.executing);
}

#[test]
fn handoff_largest_size_is_written_as_zero() {
    let (_, _, w) = started(100_000, 100_000);
    match w {
        HandoffWork::WriteConfig { config, .. } => assert_eq!(config.target_size_mb, 0),
        _ => panic!("expected the plan to be written"),
    }
}

#[test]
fn handoff_failures_are_reported() {
    let (mut a, mut h, _) = started(1, 2);
    assert!(matches!(h.advance(&mut a.tools.expand_c.state, Err("磁盘已满".to_string())), HandoffWork::Finish));
    assert!(!a.tools.expand_c.state.executing);
    assert_eq!(a.tools.expand_c.state.message, "写入扩容配置失败: 磁盘已满");
    let (mut a, mut h, _) = started(1, 2);
    let _ = h.advance(&mut a.tools.expand_c.state, Ok(()));
    assert!(matches!(h.advance(&mut a.tools.expand_c.state, Err("bcd".to_string())), HandoffWork::Finish));
    assert_eq!(a.tools.expand_c.state.message, "安装 PE 引导失败: bcd");
}

#[test]
fn written_signature_is_kept_on_the_next_check() {
    for seed in [0u32, 1, 0x0abc_def0, 0xffff_ffff] {
        let id = hex8_upper(new_signature(seed));
        assert_ne!(id, "00000000");
        let out = format!("Disk ID: {}", id);
        match signature_check(2, &out) {
            SignatureCheck::Keep(m) => assert_eq!(m, format!("磁盘 2 已有 MBR 签名 {}，无需处理", id)),
            SignatureCheck::Write => panic!("a written signature must be kept"),
        }
    }
    assert_eq!(hex8_upper(new_signature(0x0abc_def0)), "1ABCDEF0");
}

#[test]
fn pe_entries_are_remembered_on_c() {
    assert_eq!(letrecovery::pe_boot::guid_file(), "C:\\LetRecovery_PE\\pe_guid.txt");
}

#[test]
fn driver_export_session_and_progress() {
    assert_eq!(export_session_image(None), DISM_ONLINE_IMAGE);
    assert_eq!(export_session_image(None), "DISM_{53BFAE52-B167-4E2F-A258-0A37B57FF845}");
    assert_eq!(export_session_image(Some("D:")), "D:\\");
    assert_eq!(export_session_image(Some("D:\\/\\")), "D:\\");
    assert_eq!(export_session_image(Some("")), "\\");
    assert_eq!(export_final_progress(0, 12), (12, 12));
    assert_eq!(export_final_progress(30, 12), (12, 30));
}

#[test]
fn only_volumes_with_keys_are_passed_to_pe() {
    let vols = vec![
        letrecovery::pe_boot::EncryptedVolume {
            letter: "C:".to_string(),
            label: "系统".to_string(),
            recovery_key: Some("111111-222222".to_string()),
        },
        letrecovery::pe_boot::EncryptedVolume { letter: "D:".to_string(), label: "数据".to_string(), recovery_key: None },
        letrecovery::pe_boot::EncryptedVolume {
            letter: "E:".to_string(),
            label: String::new(),
            recovery_key: Some("333333".to_string()),
        },
    ];
    let e = letrecovery::pe_boot::bitlocker_key_entries(&vols);
    assert_eq!(
        e,
        vec![("C: 系统".to_string(), "111111-222222".to_string()), ("E: ".to_string(), "333333".to_string())]
    );
    assert!(letrecovery::pe_boot::bitlocker_key_entries(&Vec::new()).is_empty());
}

#[test]
fn hash_file_sizes() {
    assert_eq!(App::format_hash_file_size(0), "0 字节");
    assert_eq!(App::format_hash_file_size(1023), "1023 字节");
    assert_eq!(App::format_hash_file_size(1024), "1.00 KB");
    assert_eq!(App::format_hash_file_size(1536), "1.50 KB");
    assert_eq!(App::format_hash_file_size(3 * 1024 * 1024), "3.00 MB");
    assert_eq!(App::format_hash_file_size(5 * 1024 * 1024 * 1024 + 512 * 1024 * 1024), "5.50 GB");
}

#[test]
fn two_decimals_agree_with_float_formatting() {
    let units: [(u64, &str); 3] = [(1 << 30, "GB"), (1 << 20, "MB"), (1 << 10, "KB")];
    let mut sizes: Vec<u64> = vec![1024, 1152, 1160, 1178, 1280, 2047, 1_000_000, 1_048_575, 4_700_000_000];
    for k in 0..2000u64 {
        sizes.push(1024 + k * 37);
        sizes.push((1 << 30) + k * 5_368_709);
    }
    for s in sizes {
        let (d, name) = units.iter().copied().find(|(d, _)| s >= *d).unwrap();
        assert_eq!(App::format_hash_file_size(s), format!("{:.2} {}", s as f64 / d as f64, name), "size {}", s);
        assert_eq!(letrecovery::text::format_two_decimals(s, 1 << 30), format!("{:.2}", s as f64 / (1u64 << 30) as f64));
    }
}

#[test]
fn one_decimal_gb_agrees_with_float_formatting() {
    for mb in (0..50_000u64).chain([u32::MAX as u64, 1 << 40]) {
        assert_eq!(letrecovery::expand::format_gb_one_decimal(mb), format!("{:.1}", mb as f64 / 1024.0), "mb {}", mb);
    }
}
