use letrecovery::app_state::{BootModeSelection, DriverAction, InstallOptions};
use letrecovery::direct_install::{DirectAction, DirectEvent, DirectInstall, DirectStep, DirectWork};
use letrecovery::disk::{Partition, PartitionStyle};
use letrecovery::pe_install::{file_name_of, PeAction, PeEvent, PeInstall, PeStep, PeWork};
use letrecovery::relocate::{AssignFailure, TargetSearch, TargetStep, TargetWork};

fn options() -> InstallOptions {
    InstallOptions {
        format_partition: true,
        repair_boot: true,
        unattended_install: true,
        export_drivers: false,
        auto_reboot: false,
        boot_mode: BootModeSelection::Auto,
        driver_action: DriverAction::Skip,
        custom_unattend_path: String::new(),
        is_xp: false,
        is_xp_i386: false,
        run_diskpart_scripts: false,
    }
}

fn reports(a: &DirectAction) -> Vec<(String, u8)> {
    a.progress.iter().map(|p| (p.status.clone(), p.percentage)).collect()
}

fn pe_reports(a: &PeAction) -> Vec<(String, u8)> {
    a.progress.iter().map(|p| (p.status.clone(), p.percentage)).collect()
}

fn st(n: usize, name: &str, pct: u8) -> (String, u8) {
    (format!("STEP:{}:{}", n, name), pct)
}

fn ok() -> DirectEvent {
    DirectEvent::Done(Ok(()))
}

fn direct_job(o: InstallOptions, style: PartitionStyle) -> (DirectInstall, DirectAction) {
    DirectInstall::new("C:", style, Some(0), Some(3), "D:\\a.wim", 2, o, false, "X:\\drv")
}

#[test]
fn direct_install_runs_every_step_in_order() {
    let (mut job, a) = direct_job(options(), PartitionStyle::GPT);
    assert_eq!(reports(&a), vec![st(1, "格式化分区", 0), st(1, "格式化分区", 30)]);
    assert!(matches!(a.work, DirectWork::Format(ref t) if t == "C:"));

    let a = job.advance(ok());
    assert_eq!(reports(&a), vec![st(1, "格式化分区", 100), st(2, "导出驱动", 0), st(2, "导出驱动", 100)]);
    assert!(matches!(a.work, DirectWork::Nothing));

    let a = job.advance(ok());
    assert_eq!(reports(&a), vec![st(3, "释放系统镜像", 0)]);
    match a.work {
        DirectWork::ApplyImage { image, dir, index } => {
            assert_eq!(image, "D:\\a.wim");
            assert_eq!(dir, "C:\\");
            assert_eq!(index, 2);
        }
        _ => panic!("expected the image to be applied"),
    }

    let a = job.advance(ok());
    assert_eq!(reports(&a), vec![st(3, "释放系统镜像", 100), st(4, "导入驱动", 0)]);
    assert!(matches!(a.work, DirectWork::CheckDir(ref d) if d == "X:\\drv"));

    let a = job.advance(DirectEvent::Exists(false));
    assert!(reports(&a).is_empty());
    assert!(matches!(a.work, DirectWork::Nothing));

    let a = job.advance(ok());
    assert_eq!(reports(&a), vec![st(4, "导入驱动", 100)]);
    assert!(matches!(a.work, DirectWork::CheckDir(ref d) if d == "C:\\Windows\\Boot"));

    let a = job.advance(DirectEvent::Exists(true));
    assert_eq!(reports(&a), vec![st(5, "修复引导", 0), st(5, "修复引导", 20), st(5, "修复引导", 50)]);
    assert!(matches!(a.work, DirectWork::RepairBoot { ref target, uefi: true } if target == "C:"));

    let a = job.advance(ok());
    assert_eq!(reports(&a), vec![st(5, "修复引导", 100), st(6, "应用高级选项", 0), st(6, "应用高级选项", 20)]);
    assert!(matches!(a.work, DirectWork::ApplyAdvancedOptions { is_xp: false, .. }));

    let a = job.advance(ok());
    assert_eq!(reports(&a), vec![st(6, "应用高级选项", 50)]);
    assert!(matches!(a.work, DirectWork::InjectUserDrivers { .. }));

    let a = job.advance(ok());
    assert_eq!(reports(&a), vec![st(6, "应用高级选项", 70)]);
    assert!(matches!(a.work, DirectWork::GenerateUnattend(ref t) if t == "C:"));

    let a = job.advance(ok());
    assert_eq!(reports(&a), vec![st(6, "应用高级选项", 100), st(7, "完成安装", 100)]);
    assert!(matches!(a.work, DirectWork::Finish));
    assert_eq!(job.step, DirectStep::Finished);
}

#[test]
fn a_failed_format_stops_before_the_image_is_applied() {
    let (mut job, _) = direct_job(options(), PartitionStyle::GPT);
    let a = job.advance(DirectEvent::Done(Err("busy".to_string())));
    assert_eq!(
        reports(&a),
        vec![(
            "ERROR:格式化分区 C: 失败：busy。已中止，未释放镜像、未写入任何安装文件。请确认该分区未被占用（关闭正在浏览它的资源管理器/程序）后重试。"
                .to_string(),
            0
        )]
    );
    assert!(matches!(a.work, DirectWork::Finish));
    assert_eq!(job.step, DirectStep::Finished);
}

#[test]
fn partition_scripts_run_first_and_the_target_is_found_again() {
    let mut o = options();
    o.run_diskpart_scripts = true;
    let (mut job, a) = direct_job(o, PartitionStyle::MBR);
    assert_eq!(reports(&a), vec![st(1, "运行 Diskpart 脚本", 0)]);
    assert!(matches!(a.work, DirectWork::RunDiskpartScripts));
    let a = job.advance(DirectEvent::ScriptsRan("out".to_string()));
    assert!(matches!(a.work, DirectWork::Relocate { disk: Some(0), partition: Some(3), ref letter } if letter == "C:"));
    let a = job.advance(DirectEvent::Relocated(Err("gone".to_string())));
    assert_eq!(
        reports(&a),
        vec![(
            "ERROR:Diskpart 脚本执行后无法定位安装目标：gone\n已中止，未格式化、未释放任何文件。请点「刷新分区」重新选择目标分区，或检查 diskpart 脚本。\n脚本输出：\nout"
                .to_string(),
            0
        )]
    );
    assert!(matches!(a.work, DirectWork::Finish));
}

#[test]
fn relocation_to_a_new_letter_is_used_for_formatting() {
    let mut o = options();
    o.run_diskpart_scripts = true;
    let (mut job, _) = direct_job(o, PartitionStyle::MBR);
    job.advance(DirectEvent::ScriptsRan(String::new()));
    let a = job.advance(DirectEvent::Relocated(Ok(("T:".to_string(), PartitionStyle::GPT))));
    assert_eq!(
        reports(&a),
        vec![st(1, "运行 Diskpart 脚本", 100), st(1, "格式化分区", 0), st(1, "格式化分区", 30)]
    );
    assert!(matches!(a.work, DirectWork::Format(ref t) if t == "T:"));
    assert_eq!(job.partition_style, PartitionStyle::GPT);
}

#[test]
fn legacy_boot_on_a_known_disk_gets_a_signature_first() {
    let mut o = options();
    o.format_partition = false;
    o.driver_action = DriverAction::AutoImport;
    let (mut job, a) = direct_job(o, PartitionStyle::MBR);
    assert_eq!(reports(&a), vec![st(1, "格式化分区", 0), st(1, "格式化分区", 100)]);
    job.advance(ok());
    job.advance(ok());
    job.advance(ok());
    let a = job.advance(DirectEvent::Exists(true));
    assert_eq!(reports(&a), vec![st(4, "导入驱动", 30)]);
    assert!(matches!(a.work, DirectWork::ImportDrivers { ref target, ref backup } if target == "C:" && backup == "X:\\drv"));
    job.advance(ok());
    let a = job.advance(DirectEvent::Exists(true));
    assert!(matches!(a.work, DirectWork::EnsureMbrSignature(0)));
    let a = job.advance(ok());
    assert!(reports(&a).is_empty());
    assert!(matches!(a.work, DirectWork::RepairBoot { uefi: false, .. }));
}

#[test]
fn a_gho_image_is_restored_with_ghost() {
    let mut o = options();
    o.format_partition = false;
    let (mut job, _) = DirectInstall::new("C:", PartitionStyle::GPT, None, None, "D:\\sys.GHO", 1, o, false, "X:\\drv");
    job.advance(ok());
    let a = job.advance(ok());
    assert!(matches!(a.work, DirectWork::RestoreGhost { ref image, ref target } if image == "D:\\sys.GHO" && target == "C:"));
}

#[test]
fn an_xp_source_prepares_text_mode_setup_and_finishes() {
    let mut o = options();
    o.is_xp_i386 = true;
    o.custom_unattend_path = "E:\\winnt.sif".to_string();
    let (mut job, _) = direct_job(o, PartitionStyle::MBR);
    let a = job.advance(ok());
    assert_eq!(reports(&a), vec![st(1, "格式化分区", 100), st(2, "导出驱动", 100), st(3, "释放系统镜像", 0)]);
    match a.work {
        DirectWork::XpSetup { target, source, custom_sif } => {
            assert_eq!(target, "C:");
            assert_eq!(source, "D:\\a.wim");
            assert_eq!(custom_sif, Some("E:\\winnt.sif".to_string()));
        }
        _ => panic!("expected the text-mode setup"),
    }
    let a = job.advance(DirectEvent::Done(Err("no i386".to_string())));
    assert_eq!(reports(&a), vec![("ERROR:XP/2003 文本安装准备失败：no i386".to_string(), 0)]);
}

fn pe_options() -> InstallOptions {
    let mut o = options();
    o.driver_action = DriverAction::SaveOnly;
    o
}

#[test]
fn pe_preparation_copies_everything_and_writes_the_configuration() {
    let (mut job, a) = PeInstall::new("C:", "D:\\img\\win10.wim", 1, pe_options(), true, Some("pe.wim"), "LetRecovery PE");
    assert_eq!(pe_reports(&a), vec![st(1, "检查PE环境", 0), st(1, "检查PE环境", 50)]);
    assert!(matches!(a.work, PeWork::CheckPeExists(ref f) if f == "pe.wim"));

    let a = job.advance(PeEvent::PeFound(Some("E:\\pe\\pe.wim".to_string())));
    assert_eq!(pe_reports(&a), vec![st(1, "检查PE环境", 100), st(2, "安装PE引导", 0), st(2, "安装PE引导", 30)]);
    assert!(matches!(a.work, PeWork::BootToPe { ref pe_path, ref display_name } if pe_path == "E:\\pe\\pe.wim" && display_name == "LetRecovery PE"));

    let a = job.advance(PeEvent::Done(Ok(())));
    assert_eq!(pe_reports(&a), vec![st(2, "安装PE引导", 100), st(3, "导出驱动", 0)]);
    assert!(matches!(a.work, PeWork::FindDataPartition { ref exclude, .. } if exclude == "C:"));

    let a = job.advance(PeEvent::DataDir(Ok(("E:".to_string(), "E:\\LetRecovery".to_string()))));
    assert_eq!(pe_reports(&a), vec![st(3, "导出驱动", 30)]);
    assert!(matches!(a.work, PeWork::ExportDrivers(ref d) if d == "E:\\LetRecovery\\drivers"));

    let a = job.advance(PeEvent::Done(Ok(())));
    assert_eq!(pe_reports(&a), vec![st(3, "导出驱动", 100), st(4, "校验镜像", 0)]);
    assert!(matches!(a.work, PeWork::VerifyImage(ref i) if i == "D:\\img\\win10.wim"));

    let a = job.advance(PeEvent::Done(Ok(())));
    assert_eq!(pe_reports(&a), vec![st(4, "复制镜像文件", 0)]);
    assert!(matches!(a.work, PeWork::CopyImage { ref dst, .. } if dst == "E:\\LetRecovery\\win10.wim"));

    let a = job.advance(PeEvent::Done(Ok(())));
    assert_eq!(pe_reports(&a), vec![st(4, "复制镜像文件", 100)]);
    assert!(matches!(a.work, PeWork::CopyUefiSeven(ref d) if d == "E:\\LetRecovery\\uefiseven"));

    for ver in ["win7", "win8", "win10", "win11"] {
        let a = job.advance(PeEvent::Done(Ok(())));
        assert!(pe_reports(&a).is_empty());
        match a.work {
            PeWork::CopyUserDrivers { version, dest } => {
                assert_eq!(version, ver);
                assert_eq!(dest, format!("E:\\LetRecovery\\user_drivers\\{}", ver));
            }
            _ => panic!("expected user drivers"),
        }
    }

    let a = job.advance(PeEvent::Done(Ok(())));
    assert_eq!(pe_reports(&a), vec![st(5, "写入配置文件", 0)]);
    match a.work {
        PeWork::WriteConfig(c) => {
            assert_eq!(c.image_file, "win10.wim");
            assert_eq!(c.target_partition, "C:");
            assert_eq!(c.data_partition, "E:");
            assert!(!c.is_gho);
            assert!(c.win7_uefi_patch);
            assert_eq!(c.driver_action, DriverAction::SaveOnly);
            assert_eq!(c.volume_index, 1);
        }
        _ => panic!("expected the configuration"),
    }
    let a = job.advance(PeEvent::Done(Ok(())));
    assert_eq!(pe_reports(&a), vec![st(5, "写入配置文件", 100), st(6, "准备重启", 100)]);
    assert!(matches!(a.work, PeWork::Finish));
    assert_eq!(job.step, PeStep::Finished);
}

#[test]
fn pe_preparation_without_a_pe_ends_at_once() {
    let (job, a) = PeInstall::new("C:", "D:\\a.wim", 1, pe_options(), false, None, "PE");
    assert_eq!(pe_reports(&a), vec![st(1, "检查PE环境", 0), st(1, "检查PE环境", 100)]);
    assert!(matches!(a.work, PeWork::Finish));
    assert_eq!(job.step, PeStep::Finished);
}

#[test]
fn pe_preparation_errors_are_reported() {
    let (mut job, _) = PeInstall::new("C:", "D:\\a.wim", 1, options(), false, Some("pe.wim"), "PE");
    job.advance(PeEvent::PeFound(Some("p".to_string())));
    job.advance(PeEvent::Done(Ok(())));
    let a = job.advance(PeEvent::DataDir(Ok(("E:".to_string(), "E:\\LR".to_string()))));
    assert_eq!(pe_reports(&a), vec![st(3, "导出驱动", 100), st(4, "校验镜像", 0)]);
    let a = job.advance(PeEvent::Done(Err("bad header".to_string())));
    assert_eq!(
        pe_reports(&a),
        vec![("ERROR:镜像校验失败：镜像可能已损坏或不完整（bad header）。请重新获取镜像后重试。".to_string(), 0)]
    );
    assert!(matches!(a.work, PeWork::Finish));

    let (mut job, _) = PeInstall::new("C:", "D:\\a.wim", 1, options(), false, Some("pe.wim"), "PE");
    job.advance(PeEvent::PeFound(Some("p".to_string())));
    let a = job.advance(PeEvent::Done(Err("bcd".to_string())));
    assert_eq!(pe_reports(&a), vec![st(2, "安装PE引导", 100)]);
    assert!(matches!(a.work, PeWork::Finish));
}

#[test]
fn image_file_names() {
    assert_eq!(file_name_of("D:\\img\\win10.wim"), "win10.wim");
    assert_eq!(file_name_of("D:/img/a.esd"), "a.esd");
    assert_eq!(file_name_of("plain.gho"), "plain.gho");
    assert_eq!(file_name_of("C:\\"), "");
}

fn listed(letter: &str, disk: u32, part: u32, style: PartitionStyle) -> Partition {
    Partition {
        letter: letter.to_string(),
        label: String::new(),
        total_size_mb: 0,
        free_size_mb: 0,
        has_windows: false,
        is_system_partition: false,
        partition_style: style,
        disk_number: Some(disk),
        partition_number: Some(part),
    }
}

#[test]
fn the_target_is_found_by_its_numbers() {
    let (mut s, w) = TargetSearch::new(Some(1), Some(2), "D:");
    assert!(matches!(w, TargetWork::ListPartitions { wait_ms: 0 }));
    let w = s.on_listed(Ok(vec![listed("C:\\", 0, 1, PartitionStyle::MBR), listed("E:\\", 1, 2, PartitionStyle::GPT)]));
    assert!(matches!(w, TargetWork::Located(Ok((ref l, PartitionStyle::GPT))) if l == "E:"));
    assert_eq!(s.step, TargetStep::Done);
}

#[test]
fn a_target_without_letter_gets_one_and_is_looked_for_four_times() {
    let (mut s, _) = TargetSearch::new(Some(0), Some(3), "D:");
    let w = s.on_listed(Ok(vec![listed("", 0, 3, PartitionStyle::MBR)]));
    assert!(matches!(w, TargetWork::FindFreeLetter));
    let w = s.on_free_letter(Some('T'));
    assert!(matches!(w, TargetWork::AssignLetter(ref sc)
        if sc == "select disk 0\r\nselect partition 3\r\nremove noerr\r\nassign letter=T\r\nexit\r\n"));
    let w = s.on_assigned(Ok("  done \r\n".to_string()));
    assert!(matches!(w, TargetWork::ListPartitions { wait_ms: 800 }));
    for _ in 0..3 {
        let w = s.on_listed(Ok(vec![]));
        assert!(matches!(w, TargetWork::ListPartitions { wait_ms: 500 }));
    }
    let w = s.on_listed(Err("x".to_string()));
    match w {
        TargetWork::Located(Err(m)) => assert_eq!(
            m,
            "目标分区 磁盘0:分区3（原 D:）在 Diskpart 脚本执行后不存在，或无法挂载盘符。\ndiskpart 输出：\ndone"
        ),
        _ => panic!("expected a failure"),
    }
}

#[test]
fn the_assigned_letter_is_found() {
    let (mut s, _) = TargetSearch::new(Some(0), Some(3), "D:");
    s.on_listed(Err("no list".to_string()));
    s.on_free_letter(Some('T'));
    s.on_assigned(Ok(String::new()));
    let w = s.on_listed(Ok(vec![listed("t:", 0, 3, PartitionStyle::MBR)]));
    assert!(matches!(w, TargetWork::Located(Ok((ref l, PartitionStyle::MBR))) if l == "t:"));
}

#[test]
fn target_search_failures() {
    let (mut s, _) = TargetSearch::new(Some(0), Some(3), "D:");
    s.on_listed(Ok(vec![]));
    let w = s.on_free_letter(None);
    assert!(matches!(w, TargetWork::Located(Err(ref m)) if m == "没有空闲盘符可分配给目标分区"));

    let (mut s, _) = TargetSearch::new(Some(0), Some(3), "D:");
    s.on_listed(Ok(vec![]));
    s.on_free_letter(Some('T'));
    let w = s.on_assigned(Err(AssignFailure::RunDiskpart("denied".to_string())));
    assert!(matches!(w, TargetWork::Located(Err(ref m)) if m == "运行 diskpart 分配盘符失败: denied"));

    let (mut s, w) = TargetSearch::new(None, Some(3), "d:");
    assert_eq!(s.step, TargetStep::ListForLetter);
    assert!(matches!(w, TargetWork::ListPartitions { wait_ms: 0 }));
    let w = s.on_listed(Ok(vec![listed("D:\\", 0, 1, PartitionStyle::MBR)]));
    assert!(matches!(w, TargetWork::Located(Ok((ref l, PartitionStyle::MBR))) if l == "D:"));

    let (mut s, _) = TargetSearch::new(None, None, "Q:");
    let w = s.on_listed(Ok(vec![listed("D:\\", 0, 1, PartitionStyle::MBR)]));
    assert!(matches!(w, TargetWork::Located(Err(ref m)) if m == "目标分区 Q: 不存在，且无磁盘/分区号可重定位"));
    let (mut s, _) = TargetSearch::new(None, None, "Q:");
    let w = s.on_listed(Err("boom".to_string()));
    assert!(matches!(w, TargetWork::Located(Err(ref m)) if m == "枚举分区失败: boom"));
}
