use lpmbox::device::{
    adb_initial_wait_state, adb_reboot_result, adb_shell_error, adb_shell_output, adb_state_error,
    adb_unauthorized_guide, adb_wait_log, adb_wait_step, android_major, android_version_gate,
    battery_level_from_dumpsys, bootctl_failure_logged, check_mtk_driver_installed, check_mtk_platform,
    check_vc_runtime_installed, choose_probe_model, classify_adb_state, clean_device_line,
    contains_preloader_token, dashboard_ap_chipset_label, dashboard_display_value,
    dashboard_firmware_version_label, dashboard_has_package, dashboard_hwboard_label,
    dashboard_model_label, dashboard_ota_status_label, dashboard_rom_label, dashboard_slot_label,
    dashboard_widevine_label, detect_preloader_once, empty_to_none, ensure_dashboard_adb_ready,
    extract_hw_memory_storage_pair, extract_zui_version_segment, fastboot_reply, final_slot_check,
    find_matching_line, find_mtk_driver_installer, format_uptime_whole_seconds, handle_elevated_exit,
    is_adbd_dropped_after_reboot, kill_server_reply_result, no_usb_adb_device_error, normalize_mtk_driver_zip_entry_path,
    normalize_region, normalize_slot_suffix, powershell_single_quote_escape, preloader_poll_step,
    preloader_search_command_lines, preloader_timeout_result, preloader_tokens,
    read_dashboard_device_info, reboot_target_of, region_label, spinner_log,
    terminate_adb_fastboot_processes, vc_redist_exit_result, vc_redist_header_check,
    vc_redist_part_file_name, vc_redist_size_check, vc_runtime_final_check, AdbUsbState,
    DashboardDeviceInfo, DashboardProps, FastbootReply, RebootTarget, VcRuntimeStatus,
};
use lpmbox::device::fastboot_endpoints;
use lpmbox::model::{LpmError, RomRegion};

const UNKNOWN: &str = "알 수 없음";

fn strings(v: &[&str]) -> Vec<String> {
    v.iter().map(|s| s.to_string()).collect()
}

fn out<'a>(stdout: &'a [u8], stderr: &'a [u8]) -> Option<(&'a [u8], &'a [u8])> {
    Some((stdout, stderr))
}

fn adb_message(e: LpmError) -> String {
    match e {
        LpmError::Adb(m) => m,
        other => panic!("unexpected {other:?}"),
    }
}

fn invalid_folder_message(e: LpmError) -> String {
    match e {
        LpmError::InvalidFirmwareFolder(m) => m,
        other => panic!("unexpected {other:?}"),
    }
}

#[test]
fn regions_of_device_properties() {
    assert_eq!(normalize_region(" prc "), RomRegion::Prc);
    assert_eq!(normalize_region("cn"), RomRegion::Prc);
    assert_eq!(normalize_region("Row\n"), RomRegion::Row);
    assert_eq!(normalize_region("eu"), RomRegion::Unknown);
    assert_eq!(region_label(RomRegion::Prc), "PRC(중국 내수롬)");
    assert_eq!(region_label(RomRegion::Row), "ROW(글로벌롬)");
    assert_eq!(region_label(RomRegion::Unknown), "Unknown");
}

#[test]
fn empty_values_become_none() {
    assert_eq!(empty_to_none("  x \n".to_string()), Some("x".to_string()));
    assert_eq!(empty_to_none(" \t".to_string()), None);
}

#[test]
fn spinner_lines_carry_key_and_message() {
    assert_eq!(spinner_log("k", "msg"), "\u{1e}LPMBOX_SPINNER\u{1f}k|msg");
}

#[test]
fn dropped_connections_after_reboot() {
    assert!(is_adbd_dropped_after_reboot("ADB reboot 실패: Broken PIPE"));
    assert!(is_adbd_dropped_after_reboot("connection RESET by peer"));
    assert!(!is_adbd_dropped_after_reboot("permission denied"));
    assert!(adb_reboot_result(None).is_ok());
    assert!(adb_reboot_result(Some("Unexpected EOF")).is_ok());
    assert_eq!(adb_message(adb_reboot_result(Some("denied")).unwrap_err()), "ADB reboot 실패: denied");
}

#[test]
fn slot_suffixes() {
    assert_eq!(normalize_slot_suffix(" a "), Some("_a".to_string()));
    assert_eq!(normalize_slot_suffix("_b"), Some("_b".to_string()));
    assert_eq!(normalize_slot_suffix("c"), None);
}

#[test]
fn dashboard_labels() {
    assert_eq!(dashboard_display_value("  "), UNKNOWN);
    assert_eq!(dashboard_display_value(" ko-KR "), "ko-KR");
    assert_eq!(dashboard_ap_chipset_label(" ", " MT6789 "), "MT6789");
    assert_eq!(dashboard_ap_chipset_label(" Dimensity ", "MT6789"), "Dimensity");
    assert_eq!(dashboard_ap_chipset_label("", ""), UNKNOWN);
    assert_eq!(dashboard_ota_status_label("ROW", true), "차단 필요");
    assert_eq!(dashboard_ota_status_label("ROW", false), "차단 완료");
    assert_eq!(dashboard_ota_status_label("prc", true), "사용 중");
    assert_eq!(dashboard_ota_status_label("CN", false), "사용 하지 않음");
    assert_eq!(dashboard_ota_status_label("x", true), "감지됨");
    assert_eq!(dashboard_ota_status_label("", false), UNKNOWN);
    assert_eq!(dashboard_slot_label(" _a "), "A");
    assert_eq!(dashboard_slot_label("__b"), "B");
    assert_eq!(dashboard_slot_label("_"), UNKNOWN);
    assert_eq!(dashboard_model_label("Tab P12", "TB375FC"), "Tab P12 (TB375FC)");
    assert_eq!(dashboard_model_label("TB375FC Pad", "TB375FC"), "TB375FC Pad");
    assert_eq!(dashboard_model_label("", "TB375FC"), "TB375FC");
    assert_eq!(dashboard_model_label(" Tab ", ""), "Tab");
    assert_eq!(dashboard_model_label("", ""), UNKNOWN);
    assert_eq!(dashboard_rom_label("PRC"), "PRC(중국 내수롬)");
    assert_eq!(dashboard_rom_label(" eu "), "eu");
    assert_eq!(dashboard_rom_label(""), UNKNOWN);
}

#[test]
fn firmware_version_segment() {
    assert_eq!(
        extract_zui_version_segment("TB375FC_ZUI_16.0.123_ST_250101_x"),
        Some("ZUI_16.0.123_ST".to_string())
    );
    assert_eq!(extract_zui_version_segment("ZUXOS_1.1_ROW"), None);
    assert_eq!(dashboard_firmware_version_label(" ZUXOS_1.1.2_ST_X "), "ZUXOS_1.1.2_ST");
    assert_eq!(dashboard_firmware_version_label("build-123"), "build-123");
    assert_eq!(dashboard_firmware_version_label(" "), UNKNOWN);
}

#[test]
fn widevine_levels() {
    assert_eq!(dashboard_widevine_label("L1", ""), "L1");
    assert_eq!(dashboard_widevine_label("level_3", ""), "L3");
    assert_eq!(dashboard_widevine_label("", "x\nDefault_Security_Level: HW_SECURE_ALL\n"), "L1");
    assert_eq!(dashboard_widevine_label("", "default_security_level = sw_secure"), "L3");
    assert_eq!(dashboard_widevine_label("2", ""), "L3");
    assert_eq!(dashboard_widevine_label(" ", "nothing"), UNKNOWN);
}

#[test]
fn memory_and_storage_pairs() {
    assert_eq!(extract_hw_memory_storage_pair("P12-8+256.v2"), Some("8+256".to_string()));
    assert_eq!(extract_hw_memory_storage_pair("X_4+64_12+512"), Some("12+512".to_string()));
    assert_eq!(extract_hw_memory_storage_pair("none"), None);
    assert_eq!(dashboard_hwboard_label("A_6+128"), "6+128");
    assert_eq!(dashboard_hwboard_label("A_7+128"), UNKNOWN);
    assert_eq!(dashboard_hwboard_label(""), UNKNOWN);
}

#[test]
fn package_listing() {
    assert!(dashboard_has_package("package:com.lenovo.ota\n", "com.lenovo.ota"));
    assert!(dashboard_has_package("x\n  package:com.lenovo.ota.extra", "com.lenovo.ota"));
    assert!(!dashboard_has_package("package:com.other", "com.lenovo.ota"));
}

#[test]
fn battery_levels() {
    assert_eq!(battery_level_from_dumpsys("Current Battery Service state:\n  level: 87\n  scale: 100"), Some(87));
    assert_eq!(battery_level_from_dumpsys("level: 250"), Some(100));
    assert_eq!(battery_level_from_dumpsys("level: x\nlevel: 5"), Some(5));
    assert_eq!(battery_level_from_dumpsys("level: 300"), None);
    assert_eq!(battery_level_from_dumpsys("nothing"), None);
}

#[test]
fn uptime_text() {
    assert_eq!(format_uptime_whole_seconds(0), "0일 0시간 0분");
    assert_eq!(format_uptime_whole_seconds(90061), "1일 1시간 1분");
    assert_eq!(format_uptime_whole_seconds(3599), "0일 0시간 59분");
}

#[test]
fn default_dashboard_is_all_unknown() {
    let d = DashboardDeviceInfo::default();
    assert!(!d.connected);
    assert_eq!(d.model_name, UNKNOWN);
    assert_eq!(d.ota_status, UNKNOWN);
    assert_eq!(d.battery_level, None);
}

#[test]
fn dashboard_from_properties() {
    let p = DashboardProps {
        country_code: "KR".to_string(),
        locale: "".to_string(),
        serial_numbers: strings(&["", " ", "HA1234"]),
        original_rom_raw: "PRC".to_string(),
        product_display: "Tab P12".to_string(),
        product_device: "TB375FC".to_string(),
        platform: "MT6789".to_string(),
        installed_rom_raw: "ROW".to_string(),
        build_display_id: "TB375FC_ZUI_16.0.1_ST_1".to_string(),
        widevine_prop: "L1".to_string(),
        android_version: "15".to_string(),
        slot_suffix: "_a".to_string(),
        hw_board_id: "8+256".to_string(),
        ap_chipset_raw: "".to_string(),
        drm_widevine_dump: "".to_string(),
        battery_level: Some(80),
        uptime_display: "1일 0시간 0분".to_string(),
        has_ota_package: true,
    };
    let d = read_dashboard_device_info(&p);
    assert!(d.connected);
    assert_eq!(d.country_code, "KR");
    assert_eq!(d.locale, UNKNOWN);
    assert_eq!(d.serial_number, "HA1234");
    assert_eq!(d.original_rom, "PRC(중국 내수롬)");
    assert_eq!(d.model_name, "Tab P12 (TB375FC)");
    assert_eq!(d.installed_rom, "ROW(글로벌롬)");
    assert_eq!(d.firmware_version, "ZUI_16.0.1_ST");
    assert_eq!(d.widevine_level, "L1");
    assert_eq!(d.slot_suffix, "A");
    assert_eq!(d.hardware_info, "8+256");
    assert_eq!(d.ap_chipset, "MT6789");
    assert_eq!(d.ota_status, "차단 필요");
    assert_eq!(d.battery_level, Some(80));
    assert_eq!(d.uptime_display, "1일 0시간 0분");
}

#[test]
fn preloader_lines() {
    assert_eq!(preloader_tokens().len(), 6);
    assert!(contains_preloader_token("usb\\mediatek preloader usb vcom"));
    assert!(!contains_preloader_token("Samsung Modem"));
    assert_eq!(clean_device_line("  Name=MediaTek PreLoader USB VCOM (Android) (COM5) "), "MediaTek PreLoader USB VCOM (Android) (COM5)");
    assert_eq!(clean_device_line(" plain "), "plain");
    assert_eq!(
        find_matching_line("\nName=Keyboard\r\n\nName=MediaTek PreLoader USB VCOM (COM3)\n"),
        Some("MediaTek PreLoader USB VCOM (COM3)".to_string())
    );
    assert_eq!(find_matching_line("Name=Keyboard\n"), None);
}

#[test]
fn preloader_detection() {
    let off = detect_preloader_once(false, &vec![]);
    assert!(!off.detected);
    assert_eq!(off.method, Some("Windows 전용 감지".to_string()));
    let found = detect_preloader_once(
        true,
        &vec![None, Some("Name=MediaTek PreLoader USB VCOM (COM3)".to_string())],
    );
    assert!(found.detected);
    assert_eq!(found.display_name, Some("MediaTek PreLoader USB VCOM (COM3)".to_string()));
    assert_eq!(found.method, None);
    let none = detect_preloader_once(true, &vec![Some("Keyboard".to_string())]);
    assert!(!none.detected && none.display_name.is_none() && none.method.is_none());
    assert_eq!(none.checked_tokens.len(), 6);
    let timeout = preloader_timeout_result(30);
    assert_eq!(timeout.method, Some("30초 제한 시간 초과".to_string()));
    assert!(preloader_poll_step(none.clone(), false, 30).is_none());
    let t = preloader_poll_step(none, true, 30).unwrap();
    assert_eq!(t.method, Some("30초 제한 시간 초과".to_string()));
    let f = preloader_poll_step(found, true, 30).unwrap();
    assert!(f.detected);
}

#[test]
fn search_and_terminate_commands() {
    let c = preloader_search_command_lines();
    assert_eq!(c[0], strings(&["pnputil", "/enum-devices", "/connected"]));
    assert_eq!(c[1][0], "wmic");
    assert_eq!(c[1].len(), 8);
    assert!(terminate_adb_fastboot_processes(false).is_empty());
    assert_eq!(
        terminate_adb_fastboot_processes(true),
        vec![strings(&["taskkill", "/F", "/IM", "adb.exe"]), strings(&["taskkill", "/F", "/IM", "fastboot.exe"])]
    );
}

#[test]
fn runtime_checks_read_the_script_output() {
    let all = check_vc_runtime_installed(false, None).unwrap();
    assert!(all.all_installed());
    let s = check_vc_runtime_installed(true, out(b"LPMBOX_VC_X64_FOUND\n", b"")).unwrap();
    assert_eq!(s, VcRuntimeStatus { x86_installed: false, x64_installed: true });
    let split = check_vc_runtime_installed(true, out(b"LPMBOX_VC_X86_", b"FOUND")).unwrap();
    assert!(split.x86_installed && !split.x64_installed);
    assert_eq!(
        invalid_folder_message(check_vc_runtime_installed(true, None).unwrap_err()),
        "Microsoft Visual C++ 런타임 설치 여부 확인 명령을 실행하지 못했습니다."
    );
    assert!(check_mtk_driver_installed(false, None).unwrap());
    assert!(check_mtk_driver_installed(true, out(b"", b"LPMBOX_MTK_DRIVER_FOUND")).unwrap());
    assert!(!check_mtk_driver_installed(true, out(&[0xff, 0xfe], b"")).unwrap());
    assert_eq!(
        invalid_folder_message(check_mtk_driver_installed(true, None).unwrap_err()),
        "MTK 드라이버 설치 여부 확인 명령을 실행하지 못했습니다."
    );
}

#[test]
fn runtime_installation_checks() {
    assert!(vc_runtime_final_check(VcRuntimeStatus { x86_installed: true, x64_installed: true }).is_ok());
    assert_eq!(
        invalid_folder_message(
            vc_runtime_final_check(VcRuntimeStatus { x86_installed: false, x64_installed: false }).unwrap_err()
        ),
        "Microsoft Visual C++ 런타임 설치 완료를 확인하지 못했습니다: x86, x64. 설치 창을 완료한 뒤 다시 시도해주세요."
    );
    assert_eq!(
        invalid_folder_message(
            vc_runtime_final_check(VcRuntimeStatus { x86_installed: true, x64_installed: false }).unwrap_err()
        ),
        "Microsoft Visual C++ 런타임 설치 완료를 확인하지 못했습니다: x64. 설치 창을 완료한 뒤 다시 시도해주세요."
    );
    assert_eq!(vc_redist_exit_result(0).unwrap(), false);
    assert_eq!(vc_redist_exit_result(1638).unwrap(), false);
    assert_eq!(vc_redist_exit_result(3010).unwrap(), true);
    assert_eq!(vc_redist_exit_result(1641).unwrap(), true);
    assert_eq!(
        invalid_folder_message(vc_redist_exit_result(1223).unwrap_err()),
        "Microsoft Visual C++ 런타임 설치가 관리자 권한 확인 창에서 취소되었습니다."
    );
    assert_eq!(
        invalid_folder_message(vc_redist_exit_result(-5).unwrap_err()),
        "Microsoft Visual C++ 런타임 설치 명령이 실패했습니다. exit_code=-5"
    );
    assert!(handle_elevated_exit(0).is_ok());
    assert_eq!(
        invalid_folder_message(handle_elevated_exit(1223).unwrap_err()),
        "MTK 드라이버 설치가 관리자 권한 확인 창에서 취소되었습니다."
    );
    assert_eq!(
        invalid_folder_message(handle_elevated_exit(2).unwrap_err()),
        "MTK 드라이버 설치 명령이 실패했습니다. exit_code=2"
    );
    assert!(vc_redist_size_check(1024 * 1024).is_ok());
    assert_eq!(
        invalid_folder_message(vc_redist_size_check(1000).unwrap_err()),
        "Microsoft Visual C++ 런타임 설치 파일 크기가 올바르지 않습니다: 1000 bytes"
    );
    assert!(vc_redist_header_check(*b"MZ").is_ok());
    assert_eq!(
        invalid_folder_message(vc_redist_header_check(*b"PK").unwrap_err()),
        "Microsoft Visual C++ 런타임 설치 파일 형식이 올바르지 않습니다."
    );
    assert_eq!(vc_redist_part_file_name(Some("VC_redist.x64.exe")), "VC_redist.x64.exe.part");
    assert_eq!(vc_redist_part_file_name(None), "VC_redist.exe.part");
    assert_eq!(powershell_single_quote_escape("it's 'x'"), "it''s ''x''");
}

#[test]
fn driver_package_paths_and_installer() {
    assert_eq!(
        normalize_mtk_driver_zip_entry_path(&strings(&["MTK-Driver-v5.1632", "mtk-driver", "a", "setup.exe"])),
        strings(&["a", "setup.exe"])
    );
    assert_eq!(normalize_mtk_driver_zip_entry_path(&strings(&["x", "MTK-Driver"])), strings(&["x", "MTK-Driver"]));
    assert!(normalize_mtk_driver_zip_entry_path(&strings(&["MTK-Driver"])).is_empty());
    let names = vec![Some("readme.exe".to_string()), Some("SETUP.exe".to_string()), None, Some("DriverInstall.exe".to_string())];
    assert_eq!(find_mtk_driver_installer(&names), Some(3));
    let loose = vec![Some("a.exe".to_string()), Some("usb_driver_x.exe".to_string())];
    assert_eq!(find_mtk_driver_installer(&loose), Some(1));
    let plain = vec![Some("a.exe".to_string()), Some("b.exe".to_string())];
    assert_eq!(find_mtk_driver_installer(&plain), Some(0));
    assert_eq!(find_mtk_driver_installer(&vec![]), None);
}

#[test]
fn adb_states_and_errors() {
    assert!(matches!(classify_adb_state(false, true, true), AdbUsbState::NoDevice));
    assert!(matches!(classify_adb_state(true, true, true), AdbUsbState::Ready));
    assert!(matches!(classify_adb_state(true, false, true), AdbUsbState::ServerBlocking));
    assert!(matches!(classify_adb_state(true, false, false), AdbUsbState::Unauthorized));
    assert!(adb_state_error(&AdbUsbState::Ready).is_ok());
    assert_eq!(adb_message(adb_state_error(&AdbUsbState::Unauthorized).unwrap_err()), adb_unauthorized_guide());
    assert_eq!(adb_message(adb_state_error(&AdbUsbState::NoDevice).unwrap_err()), "USB ADB 기기를 찾지 못했습니다.");
    assert_eq!(adb_message(adb_state_error(&AdbUsbState::Error("boom".to_string())).unwrap_err()), "boom");
    assert_eq!(
        adb_message(no_usb_adb_device_error()),
        "NO_USB_ADB_DEVICE: 태블릿 확인에 실패했습니다, 올바른 데이터 케이블을 사용해주세요."
    );
}

#[test]
fn dashboard_readiness_retries_once_after_a_blocking_server() {
    assert!(ensure_dashboard_adb_ready(&AdbUsbState::Ready, None).unwrap().is_ok());
    assert!(ensure_dashboard_adb_ready(&AdbUsbState::ServerBlocking, None).is_none());
    assert!(ensure_dashboard_adb_ready(&AdbUsbState::ServerBlocking, Some(&AdbUsbState::Ready)).unwrap().is_ok());
    assert_eq!(
        adb_message(
            ensure_dashboard_adb_ready(&AdbUsbState::ServerBlocking, Some(&AdbUsbState::ServerBlocking))
                .unwrap()
                .unwrap_err()
        ),
        "외부 adb server가 USB ADB 인터페이스를 점유 중입니다."
    );
    assert!(ensure_dashboard_adb_ready(&AdbUsbState::NoDevice, None).unwrap().is_err());
}

#[test]
fn waiting_for_the_adb_device() {
    let w = adb_initial_wait_state();
    assert_eq!(w, "ADB USB 기기 감지 대기 중입니다.");
    let r = adb_wait_step(&w, Some(&AdbUsbState::Ready), true);
    assert!(r.ready && r.failure.is_none());
    let b = adb_wait_step(&w, Some(&AdbUsbState::ServerBlocking), false);
    assert!(!b.ready && b.kill_server && b.failure.is_none());
    assert_eq!(b.state, "외부 adb server가 USB ADB 인터페이스를 점유 중입니다.");
    let t = adb_wait_step(&w, None, true);
    assert_eq!(
        adb_message(t.failure.unwrap()),
        "NO_USB_ADB_DEVICE: 태블릿 확인에 실패했습니다, 올바른 데이터 케이블을 사용해주세요."
    );
    let u = adb_wait_step(&w, Some(&AdbUsbState::Unauthorized), true);
    assert_eq!(
        adb_message(u.failure.unwrap()),
        "ADB_UNAUTHORIZED_RETRY: ADB 기기 감지 시간 초과. 마지막 상태: ADB unauthorized 상태입니다."
    );
    assert_eq!(adb_wait_log(5), "\u{1e}LPMBOX_SPINNER\u{1f}adb_usb|[ADB] USB ADB 권한 요청/감지 중... ╱");
}

#[test]
fn android_version_gate_blocks_14_and_older() {
    assert_eq!(android_major(Some("15.0.1")), Some(15));
    assert_eq!(android_major(Some("14")), Some(14));
    assert_eq!(android_major(Some("x.1")), None);
    assert_eq!(android_major(None), None);
    assert!(android_version_gate(Some(15)).is_ok());
    assert!(android_version_gate(None).is_ok());
    assert_eq!(
        adb_message(android_version_gate(Some(14)).unwrap_err()),
        "Android 14 기기는 1번 설치 흐름에서 차단됩니다. Android 15 이상에서만 진행합니다."
    );
}

#[test]
fn mediatek_platform_check() {
    assert_eq!(check_mtk_platform(" mt6789 \n").unwrap(), "mt6789");
    assert_eq!(
        adb_message(check_mtk_platform("qcom").unwrap_err()),
        "MediaTek platform 감지 실패 또는 MTK 기기가 아닙니다: qcom"
    );
    assert!(check_mtk_platform("  ").is_err());
}

#[test]
fn probe_model_fallbacks() {
    assert_eq!(choose_probe_model(" TB375FC ", Some("hw")), "TB375FC");
    assert_eq!(choose_probe_model("", Some(" HW1 ")), "HW1");
    assert_eq!(choose_probe_model("", Some(" ")), "UNKNOWN");
    assert_eq!(choose_probe_model(" ", None), "UNKNOWN");
}

#[test]
fn fastboot_replies() {
    assert!(matches!(fastboot_reply("getvar:x", b"OKAY _a "), FastbootReply::Done(Ok(ref p)) if p == "_a"));
    assert!(matches!(fastboot_reply("c", b"DATA"), FastbootReply::Done(Ok(ref p)) if p.is_empty()));
    assert!(matches!(fastboot_reply("c", b"INFOwait"), FastbootReply::Continue));
    match fastboot_reply("set_active:a", b"FAILno slot") {
        FastbootReply::Done(Err(LpmError::Fastboot(m))) => assert_eq!(m, "Fastboot 명령 실패 `set_active:a`: no slot"),
        other => panic!("unexpected {other:?}"),
    }
    match fastboot_reply("c", b"OK") {
        FastbootReply::Done(Err(LpmError::Fastboot(m))) => assert_eq!(m, "Fastboot 응답이 너무 짧습니다."),
        other => panic!("unexpected {other:?}"),
    }
    match fastboot_reply("c", b"WHAT") {
        FastbootReply::Done(Err(LpmError::Fastboot(m))) => assert_eq!(m, "Fastboot 알 수 없는 응답 `WHAT` / 명령 `c`"),
        other => panic!("unexpected {other:?}"),
    }
    match fastboot_reply("c", &[0xff, 0xff, 0xff, 0xff]) {
        FastbootReply::Done(Err(LpmError::Fastboot(m))) => assert_eq!(m, "Fastboot 알 수 없는 응답 `` / 명령 `c`"),
        other => panic!("unexpected {other:?}"),
    }
}

#[test]
fn adb_server_kill_replies() {
    assert!(kill_server_reply_result(*b"OKAY").is_ok());
    assert_eq!(
        adb_message(kill_server_reply_result(*b"FAIL").unwrap_err()),
        "adb server가 host:kill 요청을 거부했습니다."
    );
    assert_eq!(
        adb_message(kill_server_reply_result(*b"OKAX").unwrap_err()),
        "adb server host:kill 응답이 예상과 다릅니다: [79, 75, 65, 88]"
    );
}

#[test]
fn reboot_targets() {
    assert_eq!(reboot_target_of("bootloader"), RebootTarget::Bootloader);
    assert_eq!(reboot_target_of("recovery"), RebootTarget::Recovery);
    assert_eq!(reboot_target_of("sideload"), RebootTarget::Sideload);
    assert_eq!(reboot_target_of("system"), RebootTarget::System);
}

#[test]
fn shell_outputs_and_errors() {
    assert_eq!(adb_shell_output(b"  15\n"), "15");
    assert_eq!(
        adb_message(adb_shell_error("getprop x", "closed", b" denied \n")),
        "ADB shell 실패 `getprop x`: closed / stderr=denied"
    );
    assert_eq!(adb_message(adb_shell_error("ls", "err", b"")), "ADB shell 실패 `ls`: err");
}

#[test]
fn final_slot_and_retries() {
    assert!(final_slot_check(Some("_a")).is_ok());
    match final_slot_check(None) {
        Err(LpmError::Fastboot(m)) => assert_eq!(m, "slot A 설정 실패 / 최종 slot: UNKNOWN"),
        other => panic!("unexpected {other:?}"),
    }
    assert!(bootctl_failure_logged(1) && bootctl_failure_logged(10));
    assert!(!bootctl_failure_logged(5));
}

#[test]
fn fastboot_interface_endpoints() {
    assert_eq!(fastboot_endpoints(0xFF, 0x42, 0x03, &vec![(true, 0x81), (false, 0x01)]), Some((0x81, 0x01)));
    assert_eq!(fastboot_endpoints(0xFF, 0x42, 0x03, &vec![(true, 0x81), (true, 0x82), (false, 0x02)]), Some((0x82, 0x02)));
    assert_eq!(fastboot_endpoints(0xFF, 0x42, 0x03, &vec![(true, 0x81)]), None);
    assert_eq!(fastboot_endpoints(0xFF, 0x42, 0x01, &vec![(true, 0x81), (false, 0x01)]), None);
    assert_eq!(fastboot_endpoints(0x08, 0x06, 0x50, &vec![(true, 0x81), (false, 0x01)]), None);
}
