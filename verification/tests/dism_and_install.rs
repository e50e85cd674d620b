use letrecovery::dism::{Compression, Dism, DismError, DriverImportRoute, OfflineSystemInfo};
use letrecovery::install::{
    detect_user_driver_version, parse_step_from_status, send_error, send_step, step_status, total_progress,
    InstallMode,
};

#[test]
fn captures_choose_compression() {
    let d = Dism::new(false);
    assert!(!d.is_pe_environment());
    let c = d.capture_image("D:\\b.wim", "C:\\", "名", "描述");
    assert_eq!(c.compression, Compression::Lzx);
    assert_eq!(c.image_file, "D:\\b.wim");
    assert_eq!(d.append_image("D:\\b.wim", "C:\\", "n", "d").compression, Compression::Lzx);
    assert_eq!(d.capture_image_esd("D:\\b.esd", "C:\\", "n", "d").compression, Compression::Lzms);
    assert_eq!(d.append_image_esd("D:\\b.esd", "C:\\", "n", "d").compression, Compression::Lzms);
}

#[test]
fn driver_import_routes() {
    let normal = Dism::new(false);
    match normal.add_drivers("C:\\", "D:\\drv") {
        DriverImportRoute::Online { driver_path } => assert_eq!(driver_path, "D:\\drv"),
        _ => panic!("expected online"),
    }
    assert_eq!(normal.add_drivers_online(), Ok(()));
    assert_eq!(normal.export_drivers(), Ok(()));
    let pe = Dism::new(true);
    match pe.add_drivers("C:\\", "D:\\drv") {
        DriverImportRoute::Offline { image_path, driver_path } => {
            assert_eq!(image_path, "C:");
            assert_eq!(driver_path, "D:\\drv");
        }
        _ => panic!("expected offline"),
    }
    assert_eq!(pe.add_drivers_online(), Err(DismError::OnlineImportInPe));
    assert_eq!(pe.export_drivers(), Err(DismError::OnlineExportInPe));
    assert_eq!(Dism::add_drivers_offline("E:/"), "E:");
    assert_eq!(Dism::driver_import_result(0, 3), Err(DismError::AllDriversFailed));
    assert_eq!(Dism::driver_import_result(1, 3), Ok(()));
    assert_eq!(Dism::driver_import_result(0, 0), Ok(()));
    assert_eq!(DismError::AllDriversFailed.message(), "所有驱动导入失败");
}

#[test]
fn export_targets_running_system() {
    let d = Dism::new(false);
    assert!(d.export_targets_running_system(" c:", Some("C:")));
    assert!(!d.export_targets_running_system("D:", Some("C:")));
    assert!(!d.export_targets_running_system("C:", None));
    assert!(!Dism::new(true).export_targets_running_system("C:", Some("C:")));
}

#[test]
fn offline_info_and_swm_helpers() {
    let info = OfflineSystemInfo {
        product_name: "Windows 11 Pro".to_string(),
        display_version: "23H2".to_string(),
        current_build: "22631".to_string(),
        edition_id: "Professional".to_string(),
        installation_type: "Client".to_string(),
    };
    assert_eq!(
        Dism::get_offline_system_info(&info),
        "产品名称: Windows 11 Pro\n版本: 23H2\n构建: 22631\n版本ID: Professional\n安装类型: Client"
    );
    assert_eq!(Dism::swm_temp_path("D:\\a.swm"), "D:\\a.tmp.wim");
    assert_eq!(Dism::swm_capture_percentage(100), 80);
    assert_eq!(Dism::swm_capture_percentage(55), 44);
}

#[test]
fn step_protocol_round_trip() {
    assert_eq!(step_status(3, "释放系统镜像"), "STEP:3:释放系统镜像");
    let p = send_step(5, "修复引导", 20);
    assert_eq!(p.percentage, 20);
    assert_eq!(parse_step_from_status(&p.status), Some((5, "修复引导".to_string())));
    assert_eq!(parse_step_from_status("STEP:4:a:b"), Some((4, "a:b".to_string())));
    assert_eq!(parse_step_from_status("STEP:x:a"), None);
    assert_eq!(parse_step_from_status("DECRYPTING:1"), None);
    let e = send_error("磁盘已满");
    assert_eq!(e.status, "ERROR:磁盘已满");
    assert_eq!(e.percentage, 0);
}

#[test]
fn overall_progress() {
    assert_eq!(total_progress(InstallMode::Direct, 3, 50), 50);
    assert_eq!(total_progress(InstallMode::Direct, 1, 100), 3);
    assert_eq!(total_progress(InstallMode::Direct, 7, 100), 100);
    assert_eq!(total_progress(InstallMode::ViaPE, 4, 50), 70);
    assert_eq!(total_progress(InstallMode::ViaPE, 6, 255), 100);
    assert_eq!(total_progress(InstallMode::ViaPE, 9, 10), 1);
}

#[test]
fn user_driver_folders() {
    assert_eq!(detect_user_driver_version(false, Some((6, 1, 7601))).as_deref(), Some("win7"));
    assert_eq!(detect_user_driver_version(false, Some((6, 3, 9600))).as_deref(), Some("win8"));
    assert_eq!(detect_user_driver_version(false, Some((10, 0, 19045))).as_deref(), Some("win10"));
    assert_eq!(detect_user_driver_version(false, Some((10, 0, 22631))).as_deref(), Some("win11"));
    assert_eq!(detect_user_driver_version(true, Some((10, 0, 22631))), None);
    assert_eq!(detect_user_driver_version(false, None), None);
    assert_eq!(detect_user_driver_version(false, Some((5, 1, 2600))), None);
}
