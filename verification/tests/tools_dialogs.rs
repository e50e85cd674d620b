use letrecovery::app_state::{AfterDownload, App, Environment, Panel, PeEntry};
use letrecovery::expand::ExpandCLoadResult;
use letrecovery::tools_state::{
    AppxPackage, BatchFormatResult, ExpandStart, FormatOutcome, HashVerifyResult, NvidiaUninstallResult,
    TimeSyncResult, ToolEvents, WindowsPartitionInfo,
};

fn app() -> App {
    App::new(Environment { is_pe: false, advanced_options_enabled: false })
}

fn no_events() -> ToolEvents {
    ToolEvents {
        windows_partitions: None,
        driver_operation: None,
        storage_driver: None,
        appx_list: None,
        appx_removed: None,
        time_sync: None,
        formatable_partitions: None,
        batch_format: None,
        nvidia_hardware: None,
        nvidia_uninstall: None,
        hash_progress: Vec::new(),
        hash_result: None,
    }
}

#[test]
fn hash_status_keeps_last_progress_then_result() {
    let mut a = app();
    a.tools.hash_verify.loading = true;
    a.check_hash_verify_status(vec![10, 30, 55], None);
    assert_eq!(a.tools.hash_verify.progress, Some(55));
    assert!(a.tools.hash_verify.loading);
    let r = HashVerifyResult {
        file_path: "E:\\a.iso".to_string(),
        file_size: 3,
        sha256: "abc".to_string(),
        expected: String::new(),
        matched: None,
        error: None,
    };
    a.check_hash_verify_status(vec![99], Some(r));
    assert!(!a.tools.hash_verify.loading);
    assert_eq!(a.tools.hash_verify.progress, None);
    assert_eq!(a.tools.hash_verify.result.as_ref().unwrap().sha256, "abc");
}

#[test]
fn nvidia_success_advises_reboot_and_reloads() {
    let mut a = app();
    a.tools.nvidia.loading = true;
    let res = NvidiaUninstallResult {
        success: true,
        message: "已卸载 2 个驱动".to_string(),
        needs_reboot: true,
        uninstalled_count: 2,
        failed_count: 0,
    };
    assert!(a.check_nvidia_uninstall_result(None, Some(res)));
    assert_eq!(a.tools.nvidia.message, "已卸载 2 个驱动，建议重启系统");
    assert!(!a.tools.nvidia.loading);
    assert!(a.tools.nvidia.hardware_loading);
}

#[test]
fn nvidia_failure_keeps_hardware() {
    let mut a = app();
    let res = NvidiaUninstallResult {
        success: false,
        message: "卸载失败: x".to_string(),
        needs_reboot: true,
        uninstalled_count: 0,
        failed_count: 1,
    };
    assert!(!a.check_nvidia_uninstall_result(None, Some(res)));
    assert_eq!(a.tools.nvidia.message, "卸载失败: x");
    assert!(!a.tools.nvidia.hardware_loading);
}

#[test]
fn async_results_are_taken() {
    let mut a = app();
    a.tools.appx.target = Some("C:".to_string());
    a.tools.driver_backup.loading = true;
    let mut ev = no_events();
    ev.windows_partitions = Some(vec![WindowsPartitionInfo {
        letter: "C:".to_string(),
        windows_version: "Windows 11".to_string(),
        architecture: "x64".to_string(),
    }]);
    ev.driver_operation = Some(Err("导出失败".to_string()));
    ev.appx_list = Some(Vec::new());
    ev.time_sync = Some(TimeSyncResult {
        success: true,
        message: "同步成功".to_string(),
        old_time: Some("10:00".to_string()),
        new_time: None,
    });
    ev.batch_format = Some(BatchFormatResult {
        success_count: 1,
        fail_count: 1,
        results: vec![
            FormatOutcome { letter: "E:".to_string(), message: "成功".to_string() },
            FormatOutcome { letter: "F:".to_string(), message: "失败".to_string() },
        ],
    });
    let f = a.check_tools_async_operations(ev);
    assert_eq!(a.tools.windows_partitions.cache.as_ref().unwrap().len(), 1);
    assert_eq!(a.tools.driver_backup.message, "导出失败");
    assert!(!a.tools.driver_backup.loading);
    assert_eq!(a.tools.appx.message, "未找到可移除的应用");
    assert_eq!(a.tools.time_sync.message, "同步成功\n\n原时间: 10:00\n新时间: ");
    assert_eq!(a.tools.batch_format.message, "格式化完成: 成功 1, 失败 1\nE:: 成功\nF:: 失败");
    assert!(f.load_formatable_partitions);
    assert!(a.tools.batch_format.partitions_loading);
    assert!(f.load_appx_for.is_none());
    assert!(!f.load_nvidia_hardware);
}

#[test]
fn appx_removal_reloads_the_list() {
    let mut a = app();
    a.tools.appx.target = Some("D:".to_string());
    a.tools.appx.list = vec![AppxPackage { package_name: "p".to_string(), display_name: "P".to_string() }];
    let mut ev = no_events();
    ev.appx_removed = Some((3, 1));
    let f = a.check_tools_async_operations(ev);
    assert_eq!(f.load_appx_for.as_deref(), Some("D:"));
    assert!(a.tools.appx.loading);
    assert!(a.tools.appx.list.is_empty());
    assert_eq!(a.tools.appx.message, "正在加载应用列表...");
}

#[test]
fn appx_removal_without_target_reports() {
    let mut a = app();
    let mut ev = no_events();
    ev.appx_removed = Some((3, 1));
    let f = a.check_tools_async_operations(ev);
    assert!(f.load_appx_for.is_none());
    assert_eq!(a.tools.appx.message, "移除完成: 成功 3, 失败 1");
}

#[test]
fn windows_partition_cache() {
    let mut a = app();
    let (list, start) = a.get_cached_windows_partitions();
    assert!(list.is_empty());
    assert!(start);
    let (_, again) = a.get_cached_windows_partitions();
    assert!(!again);
    a.tools.windows_partitions.loading = false;
    a.tools.windows_partitions.cache = Some(vec![WindowsPartitionInfo {
        letter: "D:".to_string(),
        windows_version: "Windows 10".to_string(),
        architecture: "x64".to_string(),
    }]);
    let (list, start) = a.get_cached_windows_partitions();
    assert!(!start);
    assert_eq!(list[0].letter, "D:");
    assert!(a.refresh_windows_partitions_cache());
    assert!(a.tools.windows_partitions.cache.is_none());
}

#[test]
fn network_reset_message() {
    let mut a = app();
    a.do_reset_network(4, 0);
    assert_eq!(a.tools.tool_message, "网络重置完成: 成功 4 个命令, 失败 0 个命令\n建议重启计算机以完成网络重置。");
    a.do_reset_network(0, 4);
    assert_eq!(a.tools.tool_message, "网络重置完成: 成功 0 个命令, 失败 4 个命令");
}

#[test]
fn network_and_software_dialogs_open() {
    let mut a = app();
    a.init_network_info_dialog(Vec::new());
    assert!(a.tools.network.show);
    assert!(a.tools.network.cache.as_ref().unwrap().is_empty());
    a.init_software_list_dialog(Vec::new());
    assert!(a.tools.software.show);
    assert!(!a.tools.software.loading);
}

fn loaded(found: bool, can_expand: bool) -> ExpandCLoadResult {
    ExpandCLoadResult {
        found,
        current_size_mb: 60 * 1024,
        used_mb: 30 * 1024,
        free_mb: 30 * 1024,
        max_size_mb: 100 * 1024 + 512,
        no_move_max_mb: 80 * 1024,
        can_expand,
        reason: "C 盘后方没有可用空间".to_string(),
    }
}

#[test]
fn expand_dialog_flow() {
    let mut a = app();
    a.init_expand_c_dialog();
    assert!(a.tools.expand_c.show);
    assert!(a.tools.expand_c.state.loading);
    assert_eq!(a.tools.expand_c.state.message, "正在分析 C 盘可扩容空间...");
    a.check_expand_c_load(Some(loaded(true, true)));
    assert!(!a.tools.expand_c.state.loading);
    assert_eq!(a.tools.expand_c.state.target_size_mb, 100 * 1024 + 512);
    assert_eq!(a.tools.expand_c.state.target_size_text, "100.5");
    assert!(a.tools.expand_c.state.message.is_empty());
}

#[test]
fn expand_load_reports_reasons() {
    let mut a = app();
    a.check_expand_c_load(Some(loaded(false, false)));
    assert_eq!(a.tools.expand_c.state.message, "未找到当前系统 C 盘");
    a.check_expand_c_load(Some(loaded(true, false)));
    assert_eq!(a.tools.expand_c.state.message, "C 盘后方没有可用空间");
    assert_eq!(a.tools.expand_c.state.target_size_mb, 0);
}

#[test]
fn expand_start_checks_range_and_pe() {
    let mut a = app();
    a.check_expand_c_load(Some(loaded(true, true)));
    a.tools.expand_c.state.target_size_mb = 10;
    assert!(matches!(a.start_expand_c_drive(true, "D:\\LR"), ExpandStart::OutOfRange));
    assert_eq!(a.tools.expand_c.state.message, "目标大小必须在 60.0 GB 到 100.5 GB 之间");
    a.tools.expand_c.state.target_size_mb = 70 * 1024;
    assert!(matches!(a.start_expand_c_drive(true, "D:\\LR"), ExpandStart::NoPe));
    assert_eq!(a.tools.expand_c.state.message, "未选择 PE 环境，无法扩容");
    a.pe_choice = Some(PeEntry { display_name: "LetRecovery PE".to_string(), filename: "pe.wim".to_string(), download_url: "u".to_string(), md5: "m".to_string() });
    assert!(matches!(a.start_expand_c_drive(true, "D:\\LR"), ExpandStart::Handoff));
    assert!(matches!(a.start_expand_c_drive(false, "D:\\LR"), ExpandStart::DownloadPe));
    assert_eq!(a.panel, Panel::DownloadProgress);
    assert!(!a.tools.expand_c.show);
    let d = a.pending_download.as_ref().unwrap();
    assert_eq!(d.next_action, AfterDownload::Expand);
    assert_eq!(d.save_dir, "D:\\LR\\bin\\pe");
}
