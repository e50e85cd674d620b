use letrecovery::cli_install::{no_data_partition_message, CliError, CliEvent, CliInstall, CliInstallSpec, CliStep, CliWork};
use letrecovery::partition_copy::{trim_copy_log, CopyProgress, PartitionCopyDialog};

fn spec() -> CliInstallSpec {
    CliInstallSpec {
        target_partition: "C:".to_string(),
        image_path: "D:\\img\\win.GHO".to_string(),
        pe_path: "D:\\pe.wim".to_string(),
        volume_index: 1,
        is_gho: None,
        driver_action_mode: 2,
        unattended: true,
        auto_reboot: true,
        custom_unattend_path: String::new(),
        data_partition: None,
        pe_display_name: None,
    }
}

fn done() -> CliEvent {
    CliEvent::Done(Ok(()))
}

#[test]
fn cli_install_stages_the_image_and_boots_pe() {
    let (mut job, w) = CliInstall::new(spec());
    assert!(job.is_gho);
    assert!(matches!(w, CliWork::CheckFiles { ref image, ref pe } if image == "D:\\img\\win.GHO" && pe == "D:\\pe.wim"));
    let w = job.advance(CliEvent::Checked { image_exists: true, pe_exists: true, image_size: 4096 });
    assert!(matches!(w, CliWork::FindDataPartition { ref exclude, image_size: 4096 } if exclude == "C:"));
    let w = job.advance(CliEvent::DataPartition(Ok(Some("E:".to_string()))));
    assert!(matches!(w, CliWork::MakeDataDir(ref p) if p == "E:"));
    let w = job.advance(CliEvent::DataDir(Ok("E:\\LetRecovery_Data".to_string())));
    assert!(matches!(w, CliWork::Stage { ref src, ref dst } if src == "D:\\img\\win.GHO" && dst == "E:\\LetRecovery_Data\\win.GHO"));
    let w = job.advance(done());
    match w {
        CliWork::WriteConfig { target, data_partition, config } => {
            assert_eq!(target, "C:");
            assert_eq!(data_partition, "E:");
            assert_eq!(config.image_file, "win.GHO");
            assert!(config.is_gho);
            assert!(!config.restore_drivers);
            assert_eq!(config.driver_action_mode, 2);
        }
        _ => panic!("expected the configuration"),
    }
    let w = job.advance(done());
    assert!(matches!(w, CliWork::BootToPe { ref display_name, .. } if display_name == "LetRecovery PE"));
    match job.advance(done()) {
        CliWork::Reboot(c) => {
            assert_eq!(c.program, "shutdown");
            assert_eq!(c.args, vec!["/r", "/t", "5", "/c", "LetRecovery 即将重启进入 PE 完成系统安装..."]);
        }
        _ => panic!("expected the restart"),
    }
    assert!(matches!(job.advance(done()), CliWork::Finish(Ok(()))));
    assert_eq!(job.step, CliStep::Done);
}

#[test]
fn cli_install_refusals() {
    let mut s = spec();
    s.target_partition = "  ".to_string();
    let (_, w) = CliInstall::new(s);
    assert!(matches!(w, CliWork::Finish(Err(CliError::Message(ref m))) if m == "target_partition 不能为空"));

    let (mut job, _) = CliInstall::new(spec());
    let w = job.advance(CliEvent::Checked { image_exists: true, pe_exists: false, image_size: 0 });
    assert!(matches!(w, CliWork::Finish(Err(CliError::Message(ref m))) if m == "PE 启动文件不存在: D:\\pe.wim"));

    let (mut job, _) = CliInstall::new(spec());
    job.advance(CliEvent::Checked { image_exists: true, pe_exists: true, image_size: 77 });
    let w = job.advance(CliEvent::DataPartition(Ok(None)));
    assert!(matches!(w, CliWork::Finish(Err(CliError::NoDataPartition(77)))));
    assert_eq!(no_data_partition_message("1.50"), "未找到空间足够的数据分区来暂存镜像（需约 1.50 GB）");

    let mut s = spec();
    s.data_partition = Some("F:".to_string());
    s.is_gho = Some(false);
    s.auto_reboot = false;
    s.pe_display_name = Some("My PE".to_string());
    let (mut job, _) = CliInstall::new(s);
    assert!(!job.is_gho);
    let w = job.advance(CliEvent::Checked { image_exists: true, pe_exists: true, image_size: 1 });
    assert!(matches!(w, CliWork::MakeDataDir(ref p) if p == "F:"));
    job.advance(CliEvent::DataDir(Ok("F:\\D".to_string())));
    let w = job.advance(CliEvent::Done(Err("disk full".to_string())));
    assert!(matches!(w, CliWork::Finish(Err(CliError::Message(ref m))) if m == "拷贝镜像失败: D:\\img\\win.GHO -> F:\\D\\win.GHO"));

    let mut s = spec();
    s.auto_reboot = false;
    s.pe_display_name = Some("My PE".to_string());
    let (mut job, _) = CliInstall::new(s);
    job.advance(CliEvent::Checked { image_exists: true, pe_exists: true, image_size: 1 });
    job.advance(CliEvent::DataPartition(Ok(Some("E:".to_string()))));
    job.advance(CliEvent::DataDir(Ok("E:\\D".to_string())));
    job.advance(done());
    let w = job.advance(done());
    assert!(matches!(w, CliWork::BootToPe { ref display_name, .. } if display_name == "My PE"));
    assert!(matches!(job.advance(done()), CliWork::Finish(Ok(()))));
}

fn progress(file: &str, completed: bool, error: Option<&str>) -> CopyProgress {
    CopyProgress {
        current_file: file.to_string(),
        copied_count: 3,
        skipped_count: 1,
        failed_count: 0,
        total_count: 10,
        completed,
        error: error.map(|e| e.to_string()),
    }
}

#[test]
fn partition_copy_needs_two_different_partitions() {
    let mut d = PartitionCopyDialog::new();
    assert!(d.start_partition_copy(Ok(())).is_none());
    assert_eq!(d.message, "请选择源分区");
    d.source = Some("D:".to_string());
    assert!(d.start_partition_copy(Ok(())).is_none());
    assert_eq!(d.message, "请选择目标分区");
    d.target = Some("D:".to_string());
    assert!(!d.can_start_copy());
    assert!(d.start_partition_copy(Ok(())).is_none());
    assert_eq!(d.message, "错误: 源分区和目标分区不能相同！");
    d.target = Some("E:".to_string());
    assert!(d.can_start_copy());
    assert!(d.start_partition_copy(Err("目标分区空间不足".to_string())).is_none());
    assert_eq!(d.message, "目标分区空间不足");
    d.update_partition_copy_resume_state(true);
    assert_eq!(d.copy_button_text(), "继续对拷");
    d.log = "old".to_string();
    let j = d.start_partition_copy(Ok(())).unwrap();
    assert_eq!((j.source.as_str(), j.target.as_str(), j.resume), ("D:", "E:", true));
    assert!(d.copying);
    assert!(d.log.is_empty());
    assert_eq!(d.message, "正在准备复制...");
}

#[test]
fn partition_copy_progress_and_log() {
    let mut d = PartitionCopyDialog::new();
    d.copying = true;
    let reload = d.check_partition_copy_async_operations(
        None,
        false,
        vec![progress("a.txt", false, None), progress("b.txt", false, None)],
    );
    assert!(!reload);
    assert_eq!(d.log, "[复制] b.txt\n");
    assert_eq!(d.message, "正在复制 3/10（跳过 1）: b.txt");
    d.check_partition_copy_async_operations(None, false, vec![progress("正在扫描", false, None)]);
    assert_eq!(d.log, "[复制] b.txt\n");
    let mut fin = progress("c.txt", true, None);
    fin.failed_count = 2;
    let reload = d.check_partition_copy_async_operations(None, false, vec![fin]);
    assert!(reload);
    assert!(!d.copying);
    assert_eq!(d.log, "[复制] b.txt\n[完成] c.txt\n");
    assert_eq!(d.message, "复制完成！已复制 3 个文件，跳过 1 个，失败 2 个");
    assert!(d.partitions_loading);
    let mut e = PartitionCopyDialog::new();
    e.copying = true;
    e.check_partition_copy_async_operations(None, false, vec![progress("", false, Some("磁盘已满"))]);
    assert!(!e.copying);
    assert_eq!(e.message, "错误: 磁盘已满");
}

#[test]
fn copy_log_is_trimmed_at_a_newline() {
    let short = "x\n".repeat(10);
    assert_eq!(trim_copy_log(&short), short);
    let line = format!("{}\n", "a".repeat(99));
    let long = line.repeat(1001); // 100100 bytes
    let t = trim_copy_log(&long);
    // The cut is at byte 50100, where a line starts; everything up to the end of
    // that line goes.
    assert_eq!(t.len(), 49900);
    assert!(t.starts_with("aaa"));
    assert_eq!(t, line.repeat(499));
    let no_newline = "b".repeat(100_001);
    assert_eq!(trim_copy_log(&no_newline), no_newline);
}
