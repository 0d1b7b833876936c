use lpmbox::model::{LpmError, RomRegion};
use lpmbox::ota::{
    disable_ota_updates, enable_ota_updates, op_command, op_log, ota_op, ota_step_allowed, OtaAction,
    OtaEvent, OtaFlow, OtaNext, OtaRequest, OtaStage,
};
use lpmbox::probe::{
    probe_adb_device_for_convert_wipe, probe_step_allowed, query_command, AdbDeviceProbe, ProbeAction,
    ProbeEvent, ProbeNext, ProbeQuery, ProbeRequest, ProbeStage,
};
use lpmbox::runtimes::{
    install_mtk_driver, install_vc_runtimes, prepare_mtk_driver_package, MtkContext, MtkEvent,
    MtkInstallEvent, MtkInstallNext, MtkInstallRequest, MtkInstallStage, MtkPrepareNext,
    MtkPrepareRequest, MtkPrepareStage, RtAction, VcArch, VcContext, VcEvent, VcNext, VcRequest, VcStage,
};
use lpmbox::device::VcRuntimeStatus;
use lpmbox::slot_stage::{
    run_current_slot_a_stage, slot_step_allowed, trigger_rom_install_reboot_commands, RebootRequest,
    RebootStage, SlotAction, SlotEvent, SlotNext, SlotRequest, SlotStage,
};

fn slot_logs(actions: &[SlotAction]) -> Vec<String> {
    actions
        .iter()
        .filter_map(|a| match a {
            SlotAction::Log(s) => Some(s.clone()),
            _ => None,
        })
        .collect()
}

/// Runs the slot stage with scripted outcomes: `bootctl_failures` failed
/// attempts first, and `final_slot` as the slot read at the end.
fn run_slot_stage(bootctl_failures: u32, final_slot: Option<&str>) -> (Result<(), LpmError>, Vec<SlotAction>, u32) {
    let mut stage = SlotStage::Start;
    let mut event = SlotEvent::Begin;
    let mut all = Vec::new();
    let mut bootctl_calls = 0u32;
    loop {
        assert!(slot_step_allowed(&stage, &event));
        let step = run_current_slot_a_stage(stage, event);
        all.extend(step.actions);
        match step.next {
            SlotNext::Finish(r) => return (r, all, bootctl_calls),
            SlotNext::Await(req, next) => {
                event = match req {
                    SlotRequest::BootctlSetSlot => {
                        bootctl_calls += 1;
                        if bootctl_calls <= bootctl_failures {
                            SlotEvent::Bootctl(Err("busy".to_string()))
                        } else {
                            SlotEvent::Bootctl(Ok(()))
                        }
                    }
                    SlotRequest::ReadSlot => SlotEvent::Slot(Some("_b".to_string())),
                    SlotRequest::ReadFinalSlot => SlotEvent::FinalSlot(Ok(final_slot.map(|s| s.to_string()))),
                    _ => SlotEvent::Done(Ok(())),
                };
                stage = next;
            }
        }
    }
}

#[test]
fn slot_stage_succeeds_when_slot_a_is_reported() {
    let (r, actions, calls) = run_slot_stage(0, Some("_a"));
    assert!(r.is_ok());
    assert_eq!(calls, 1);
    let logs = slot_logs(&actions);
    assert!(logs.contains(&"[Fastboot] current-slot: _b".to_string()));
    assert!(logs.contains(&"[Fastboot] current-slot 재확인: _a".to_string()));
    assert_eq!(logs.last().unwrap(), "\u{1e}LPMBOX_SPINNER\u{1f}fastboot_stabilize|[Fastboot] 안정화 대기 완료");
    let sleeps: Vec<u64> = actions
        .iter()
        .filter_map(|a| match a {
            SlotAction::Sleep { secs } => Some(*secs),
            _ => None,
        })
        .collect();
    assert_eq!(sleeps, vec![2, 1, 1, 1, 2, 1, 1, 1, 5]);
}

#[test]
fn bootctl_is_tried_at_most_ten_times() {
    let (r, actions, calls) = run_slot_stage(50, Some("_a"));
    assert!(r.is_ok());
    assert_eq!(calls, 10);
    let logs = slot_logs(&actions);
    let retries: Vec<&String> = logs.iter().filter(|l| l.starts_with("[ADB] Slot 설정 재시도")).collect();
    assert_eq!(retries, vec!["[ADB] Slot 설정 재시도 1/10 실패: busy", "[ADB] Slot 설정 재시도 10/10 실패: busy"]);
    assert!(logs.iter().any(|l| l.ends_with("[ADB] ADB 명령어 Slot 설정 실패, Fastboot Slot 설정으로 계속 진행합니다.")));
}

#[test]
fn slot_stage_fails_on_another_slot() {
    let (r, actions, _) = run_slot_stage(2, Some("_b"));
    match r {
        Err(LpmError::Fastboot(m)) => assert_eq!(m, "slot A 설정 실패 / 최종 slot: _b"),
        other => panic!("unexpected {other:?}"),
    }
    assert!(matches!(actions.last(), Some(SlotAction::FastbootReboot)));
    let (r2, _, _) = run_slot_stage(0, None);
    match r2 {
        Err(LpmError::Fastboot(m)) => assert_eq!(m, "slot A 설정 실패 / 최종 slot: UNKNOWN"),
        other => panic!("unexpected {other:?}"),
    }
}

#[test]
fn slot_stage_stops_at_a_failed_wait() {
    let step = run_current_slot_a_stage(SlotStage::AwaitAdb, SlotEvent::Done(Err(LpmError::Adb("gone".to_string()))));
    assert!(step.actions.is_empty());
    assert!(matches!(step.next, SlotNext::Finish(Err(LpmError::Adb(ref m))) if m == "gone"));
    assert!(!slot_step_allowed(&SlotStage::Bootctl { attempt: 11 }, &SlotEvent::Bootctl(Ok(()))));
    assert!(!slot_step_allowed(&SlotStage::Start, &SlotEvent::Done(Ok(()))));
}

#[test]
fn rom_install_reboot_goes_on_after_failures() {
    let s = trigger_rom_install_reboot_commands(RebootStage::Start, false);
    assert_eq!(s.logs, vec!["\u{1e}LPMBOX_SPINNER\u{1f}reboot_device|[ADB] adb reboot 1회 실행 중... │".to_string()]);
    assert_eq!(s.next, Some((RebootRequest::AdbReboot, RebootStage::AwaitAdbReboot)));
    let s = trigger_rom_install_reboot_commands(RebootStage::AwaitAdbReboot, false);
    assert!(s.logs[0].ends_with("[ADB] adb reboot 1회 실행 실패, Fastboot 명령을 계속 시도합니다."));
    assert_eq!(s.next, Some((RebootRequest::FastbootReboot, RebootStage::AwaitFastbootReboot)));
    let s = trigger_rom_install_reboot_commands(RebootStage::AwaitFastbootReboot, true);
    assert!(s.logs[0].ends_with("[Fastboot] fastboot reboot 1회 실행 완료"));
    assert_eq!(s.next, None);
}

fn probe_logs(actions: &[ProbeAction]) -> Vec<String> {
    actions
        .iter()
        .filter_map(|a| match a {
            ProbeAction::Log(s) => Some(s.clone()),
            _ => None,
        })
        .collect()
}

fn run_probe(reply: impl Fn(ProbeQuery) -> Result<String, LpmError>) -> (Result<AdbDeviceProbe, LpmError>, Vec<String>, Vec<ProbeQuery>) {
    let mut stage = ProbeStage::Start;
    let mut event = ProbeEvent::Begin;
    let mut logs = Vec::new();
    let mut asked = Vec::new();
    loop {
        assert!(probe_step_allowed(&stage, &event));
        let step = probe_adb_device_for_convert_wipe(stage, event);
        logs.extend(probe_logs(&step.actions));
        match step.next {
            ProbeNext::Finish(r) => return (r, logs, asked),
            ProbeNext::Await(ProbeRequest::WaitAdb, next) => {
                stage = next;
                event = ProbeEvent::Ready(Ok(()));
            }
            ProbeNext::Await(ProbeRequest::Query(q), next) => {
                asked.push(q);
                stage = next;
                event = ProbeEvent::Reply(reply(q));
            }
        }
    }
}

#[test]
fn probe_of_a_supported_tablet() {
    let (r, logs, asked) = run_probe(|q| {
        Ok(match q {
            ProbeQuery::AndroidVersion => "15\n",
            ProbeQuery::Platform => " mt6789 ",
            ProbeQuery::Model => " ",
            ProbeQuery::HardwareVersion => "TB375FC ",
            ProbeQuery::Region => "prc",
            ProbeQuery::SlotSuffix => "b",
        }
        .to_string())
    });
    let p = r.unwrap();
    assert_eq!(p.android_version, Some("15".to_string()));
    assert_eq!(p.android_major, Some(15));
    assert_eq!(p.platform, "mt6789");
    assert_eq!(p.model, "TB375FC");
    assert_eq!(p.region, RomRegion::Prc);
    assert_eq!(p.current_slot, Some("_b".to_string()));
    assert_eq!(asked.len(), 6);
    assert!(logs.contains(&"[ADB] Android 버전: 15".to_string()));
    assert!(logs.contains(&"[ADB] platform: mt6789".to_string()));
    assert!(logs.contains(&"[ADB] model: TB375FC".to_string()));
    assert!(logs.contains(&"[ADB] region: PRC(중국 내수롬)".to_string()));
}

#[test]
fn probe_blocks_android_14() {
    let (r, logs, asked) = run_probe(|q| Ok(if q == ProbeQuery::AndroidVersion { "14.1" } else { "MT6789" }.to_string()));
    match r {
        Err(LpmError::Adb(m)) => assert_eq!(m, "Android 14 기기는 1번 설치 흐름에서 차단됩니다. Android 15 이상에서만 진행합니다."),
        other => panic!("unexpected {other:?}"),
    }
    assert_eq!(asked, vec![ProbeQuery::AndroidVersion]);
    assert!(logs.contains(&"[ADB] Android 버전: 14".to_string()));
}

#[test]
fn probe_refuses_other_platforms_and_keeps_going_without_a_version() {
    let (r, logs, _) = run_probe(|q| Ok(if q == ProbeQuery::AndroidVersion { "" } else { "qcom" }.to_string()));
    match r {
        Err(LpmError::Adb(m)) => assert_eq!(m, "MediaTek platform 감지 실패 또는 MTK 기기가 아닙니다: qcom"),
        other => panic!("unexpected {other:?}"),
    }
    assert!(logs.contains(&"[ADB] Android 버전 감지 실패".to_string()));
}

#[test]
fn probe_falls_back_to_unknown_model_and_no_slot() {
    let (r, _, _) = run_probe(|q| match q {
        ProbeQuery::AndroidVersion => Ok("16".to_string()),
        ProbeQuery::Platform => Ok("MT6897".to_string()),
        ProbeQuery::Model => Ok("".to_string()),
        ProbeQuery::HardwareVersion => Err(LpmError::Adb("x".to_string())),
        ProbeQuery::Region => Ok("ROW".to_string()),
        ProbeQuery::SlotSuffix => Err(LpmError::Adb("y".to_string())),
    });
    let p = r.unwrap();
    assert_eq!(p.model, "UNKNOWN");
    assert_eq!(p.region, RomRegion::Row);
    assert_eq!(p.current_slot, None);
    assert_eq!(query_command(ProbeQuery::SlotSuffix), "getprop ro.boot.slot_suffix");
}

fn run_ota(flow: OtaFlow, reply: impl Fn(&str) -> Result<String, String>) -> (Result<(), LpmError>, Vec<String>, Vec<String>, usize) {
    let mut stage = OtaStage::Start;
    let mut event = OtaEvent::Begin;
    let mut logs = Vec::new();
    let mut commands = Vec::new();
    let mut kills = 0usize;
    loop {
        assert!(ota_step_allowed(flow, &stage, &event));
        let step = match flow {
            OtaFlow::Disable => disable_ota_updates(stage, event),
            OtaFlow::Enable => enable_ota_updates(stage, event),
        };
        for a in step.actions {
            match a {
                OtaAction::Log(s) => logs.push(s),
                OtaAction::KillAdbServer => kills += 1,
                OtaAction::PrepareUsb => {}
            }
        }
        match step.next {
            OtaNext::Finish(r) => return (r, logs, commands, kills),
            OtaNext::Await(OtaRequest::WaitAdb, next) => {
                stage = next;
                event = OtaEvent::Ready(Ok(()));
            }
            OtaNext::Await(OtaRequest::Shell(c), next) => {
                event = OtaEvent::Reply(reply(&c));
                commands.push(c);
                stage = next;
            }
        }
    }
}

#[test]
fn disabling_updates_runs_every_command_once() {
    let (r, logs, commands, kills) = run_ota(OtaFlow::Disable, |c| {
        if c.contains("tblenovo") { Err("not installed".to_string()) } else { Ok(String::new()) }
    });
    assert!(r.is_ok());
    assert_eq!(kills, 1);
    assert_eq!(commands.len(), 8);
    assert_eq!(commands[0], "settings put global ota_disable_automatic_update 1");
    assert_eq!(commands[7], "pm uninstall -k --user 0 com.lenovo.tbengine");
    assert!(logs.contains(&"[OTA] 설정 적용: system ota_network_permission=0".to_string()));
    assert!(logs.contains(&"[OTA] 패키지 비활성화 확인 필요: com.tblenovo.lenovowhatsnew / not installed".to_string()));
    assert!(logs.contains(&"[OTA] 패키지 비활성화: com.lenovo.ota".to_string()));
    assert!(logs.contains(&"[OTA] 업데이트 관련 패키지를 비활성화합니다.".to_string()));
}

#[test]
fn enabling_updates_skips_the_global_rom() {
    let (r, logs, commands, kills) = run_ota(OtaFlow::Enable, |_| Ok(" row\n".to_string()));
    assert!(r.is_ok());
    assert_eq!(commands, vec!["getprop ro.config.zui.region".to_string()]);
    assert_eq!(kills, 1);
    assert!(logs.contains(&"[OTA] 기기에 설치된 ROM 타입: ROW".to_string()));
    assert!(logs.contains(&"[OTA] ROW(글로벌롬)은 OTA 활성화 작업을 건너뜁니다.".to_string()));
}

#[test]
fn enabling_updates_restores_then_enables_five_packages() {
    let (r, logs, commands, kills) = run_ota(OtaFlow::Enable, |c| {
        if c.starts_with("getprop") { Err("offline".to_string()) } else { Ok("Package installed".to_string()) }
    });
    assert!(r.is_ok());
    assert_eq!(kills, 1);
    assert_eq!(commands.len(), 11);
    assert_eq!(commands[1], "cmd package install-existing --user 0 com.zui.homesettings");
    assert_eq!(commands[10], "pm enable --user 0 com.zui.safecenter");
    assert!(!logs.iter().any(|l| l.starts_with("[OTA] 기기에 설치된 ROM 타입")));
    assert!(logs.contains(&"[OTA] 패키지 복원: com.zui.homesettings / Package installed".to_string()));
    assert_eq!(logs.last().unwrap(), "[OTA] 설정 → 시스템 업데이트에서 OTA 상태를 확인해주세요.");
}

#[test]
fn ota_operations_and_logs() {
    let op = ota_op(OtaFlow::Enable, 6);
    assert_eq!(op_command(&op), "pm enable --user 0 com.lenovo.tbengine");
    assert_eq!(op_log(&op, &Ok("  ".to_string())), "[OTA] 패키지 활성화: com.lenovo.tbengine");
    let s = ota_op(OtaFlow::Disable, 0);
    assert_eq!(op_log(&s, &Err("e".to_string())), "[OTA] 설정 적용 실패: global ota_disable_automatic_update / e");
    let step = disable_ota_updates(OtaStage::AwaitAdb, OtaEvent::Ready(Err(LpmError::Adb("none".to_string()))));
    assert!(matches!(step.next, OtaNext::Finish(Err(LpmError::Adb(ref m))) if m == "none"));
}

fn vc_ctx(on_windows: bool) -> VcContext {
    VcContext { on_windows, x86_installer: "C:\\x86.exe".to_string(), x64_installer: "C:\\x64.exe".to_string() }
}

fn run_vc(ctx: &VcContext, statuses: Vec<VcRuntimeStatus>, code: i32) -> (Result<(), LpmError>, Vec<String>, Vec<VcRequest>) {
    let mut stage = VcStage::Start;
    let mut event = VcEvent::Begin;
    let mut logs = Vec::new();
    let mut reqs = Vec::new();
    let mut statuses = statuses.into_iter();
    loop {
        let step = install_vc_runtimes(ctx, stage, event);
        for a in step.actions {
            if let RtAction::Log(s) = a {
                logs.push(s);
            }
        }
        match step.next {
            VcNext::Finish(r) => return (r, logs, reqs),
            VcNext::Await(req, next) => {
                reqs.push(req);
                event = match req {
                    VcRequest::CheckStatus => VcEvent::Status(Ok(statuses.next().unwrap())),
                    VcRequest::RunInstaller(_) => VcEvent::Exit(Ok(code)),
                    _ => VcEvent::Done(Ok(())),
                };
                stage = next;
            }
        }
    }
}

fn st(x86: bool, x64: bool) -> VcRuntimeStatus {
    VcRuntimeStatus { x86_installed: x86, x64_installed: x64 }
}

#[test]
fn runtimes_already_installed() {
    let (r, logs, _) = run_vc(&vc_ctx(true), vec![st(true, true)], 0);
    assert!(r.is_ok());
    assert_eq!(logs, vec!["[Runtime] Microsoft Visual C++ x86/x64 런타임이 이미 설치되어 있습니다."]);
}

#[test]
fn runtimes_are_installed_x86_first() {
    let (r, logs, reqs) = run_vc(&vc_ctx(true), vec![st(false, false), st(true, false), st(true, true)], 3010);
    assert!(r.is_ok());
    assert_eq!(
        reqs,
        vec![
            VcRequest::CheckStatus,
            VcRequest::CreateDownloadDir,
            VcRequest::Download(VcArch::X86),
            VcRequest::RunInstaller(VcArch::X86),
            VcRequest::CheckStatus,
            VcRequest::Download(VcArch::X64),
            VcRequest::RunInstaller(VcArch::X64),
            VcRequest::CheckStatus,
        ]
    );
    assert!(logs.contains(&"[Runtime] Microsoft Visual C++ x64 설치 파일을 실행합니다: C:\\x64.exe".to_string()));
    assert_eq!(
        logs.last().unwrap(),
        "[Runtime] Microsoft Visual C++ 런타임 설치가 완료되었습니다. Windows 재시작이 필요할 수 있습니다."
    );
}

#[test]
fn runtime_installation_failures() {
    let (r, _, _) = run_vc(&vc_ctx(true), vec![st(true, false), st(true, false), st(true, false)], 0);
    match r {
        Err(LpmError::InvalidFirmwareFolder(m)) => assert_eq!(
            m,
            "Microsoft Visual C++ 런타임 설치 완료를 확인하지 못했습니다: x64. 설치 창을 완료한 뒤 다시 시도해주세요."
        ),
        other => panic!("unexpected {other:?}"),
    }
    let (r, _, _) = run_vc(&vc_ctx(true), vec![st(false, true)], 1223);
    assert!(matches!(r, Err(LpmError::InvalidFirmwareFolder(ref m)) if m.contains("취소되었습니다")));
    let (r, logs, _) = run_vc(&vc_ctx(false), vec![], 0);
    match r {
        Err(LpmError::InvalidFirmwareFolder(m)) => assert_eq!(m, "Microsoft Visual C++ 런타임 설치는 Windows에서만 지원됩니다."),
        other => panic!("unexpected {other:?}"),
    }
    assert_eq!(logs, vec!["[Runtime] Microsoft Visual C++ 런타임 설치는 Windows에서만 지원됩니다."]);
}

fn mtk_ctx(on_windows: bool) -> MtkContext {
    MtkContext { on_windows, driver_dir: "D:\\drv".to_string(), installer: "D:\\drv\\MTK-Driver-Setup.exe".to_string() }
}

fn run_prepare(ctx: &MtkContext, prepared: bool, installer_found: bool) -> (Result<(), LpmError>, Vec<String>, Vec<MtkPrepareRequest>) {
    let mut stage = MtkPrepareStage::Start;
    let mut event = MtkEvent::Begin;
    let mut logs = Vec::new();
    let mut reqs = Vec::new();
    loop {
        let step = prepare_mtk_driver_package(ctx, stage, event);
        for a in step.actions {
            if let RtAction::Log(s) = a {
                logs.push(s);
            }
        }
        match step.next {
            MtkPrepareNext::Finish(r) => return (r, logs, reqs),
            MtkPrepareNext::Await(req, next) => {
                reqs.push(req);
                event = match req {
                    MtkPrepareRequest::CheckPrepared => MtkEvent::Found(prepared),
                    MtkPrepareRequest::FindInstaller => MtkEvent::Found(installer_found),
                    _ => MtkEvent::Done(Ok(())),
                };
                stage = next;
            }
        }
    }
}

#[test]
fn driver_package_preparation() {
    let (r, logs, reqs) = run_prepare(&mtk_ctx(true), true, true);
    assert!(r.is_ok());
    assert_eq!(reqs, vec![MtkPrepareRequest::CheckPrepared]);
    assert_eq!(logs, vec!["[Driver] MTK 드라이버 설치 파일 준비 완료: D:\\drv"]);
    let (r, logs, reqs) = run_prepare(&mtk_ctx(true), false, true);
    assert!(r.is_ok());
    assert_eq!(reqs.len(), 6);
    assert!(logs.contains(&"[Driver] MTK 드라이버 압축을 D:\\drv 경로에 해제합니다.".to_string()));
    let (r, _, _) = run_prepare(&mtk_ctx(true), false, false);
    match r {
        Err(LpmError::FileNotFound(m)) => assert_eq!(m, "MTK 드라이버 설치 파일을 찾지 못했습니다: D:\\drv\\MTK-Driver-Setup.exe"),
        other => panic!("unexpected {other:?}"),
    }
    let (r, _, _) = run_prepare(&mtk_ctx(false), false, false);
    assert!(matches!(r, Err(LpmError::InvalidFirmwareFolder(ref m)) if m == "MTK 드라이버 파일 준비는 Windows에서만 지원됩니다."));
}

fn run_install(ctx: &MtkContext, located: Option<&str>, code: i32, installed: bool) -> (Result<(), LpmError>, Vec<String>) {
    let mut stage = MtkInstallStage::Start;
    let mut event = MtkInstallEvent::Begin;
    let mut logs = Vec::new();
    loop {
        let step = install_mtk_driver(ctx, stage, event);
        for a in step.actions {
            if let RtAction::Log(s) = a {
                logs.push(s);
            }
        }
        match step.next {
            MtkInstallNext::Finish(r) => return (r, logs),
            MtkInstallNext::Await(req, next) => {
                event = match req {
                    MtkInstallRequest::Prepare => MtkInstallEvent::Done(Ok(())),
                    MtkInstallRequest::LocateInstaller => MtkInstallEvent::Located(located.map(|s| s.to_string())),
                    MtkInstallRequest::RunElevated(_) => MtkInstallEvent::Exit(Ok(code)),
                    MtkInstallRequest::CheckInstalled => MtkInstallEvent::Installed(Ok(installed)),
                };
                stage = next;
            }
        }
    }
}

#[test]
fn driver_installation() {
    let (r, logs) = run_install(&mtk_ctx(true), Some("D:\\drv\\setup.exe"), 0, true);
    assert!(r.is_ok());
    assert_eq!(
        logs,
        vec!["[Driver] MTK 드라이버 설치 파일을 실행합니다: D:\\drv\\setup.exe", "[Driver] MTK 드라이버 설치 감지 완료"]
    );
    let (r, _) = run_install(&mtk_ctx(true), Some("x.exe"), 0, false);
    assert!(matches!(r, Err(LpmError::InvalidFirmwareFolder(ref m)) if m == "MTK 드라이버 설치 완료를 확인하지 못했습니다. 설치 창을 완료한 뒤 다시 시도해주세요."));
    let (r, _) = run_install(&mtk_ctx(true), None, 0, true);
    assert!(matches!(r, Err(LpmError::FileNotFound(ref m)) if m == "MTK 드라이버 설치 파일을 찾지 못했습니다: D:\\drv"));
    let (r, _) = run_install(&mtk_ctx(true), Some("x.exe"), 5, true);
    assert!(matches!(r, Err(LpmError::InvalidFirmwareFolder(ref m)) if m == "MTK 드라이버 설치 명령이 실패했습니다. exit_code=5"));
    let (r, logs) = run_install(&mtk_ctx(false), None, 0, true);
    assert!(matches!(r, Err(LpmError::InvalidFirmwareFolder(ref m)) if m == "MTK 드라이버 설치는 Windows에서만 지원됩니다."));
    assert_eq!(logs, vec!["[Driver] MTK 드라이버 설치는 Windows에서만 지원됩니다."]);
}
