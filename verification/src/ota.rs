//! Turning the tablet's over-the-air updates off and on again over ADB: a
//! fixed list of settings and package commands, each tried once; a failure is
//! logged and the list goes on. A tablet with the global (ROW) ROM is left as
//! it is when updates are turned back on.
//!
//! The decisions are a state machine: the program performs each request and
//! hands its outcome back as the next event.
use vstd::prelude::*;
use crate::device::{spinner_log, spinner_text, unauthorized_guide, adb_unauthorized_guide};
use crate::model::LpmError;
use crate::text::{append, append_str, ascii_upper, ascii_upper_vec, chars_eq_str, chars_of, string_of, trim, trim_vec};

verus! {

/// Which way the updates are switched.
#[derive(Debug, Clone, Copy, PartialEq, Eq, Structural)]
pub enum OtaFlow {
    Disable,
    Enable,
}

/// What is done to a package.
#[derive(Debug, Clone, Copy, PartialEq, Eq, Structural)]
pub enum PackageOp {
    Uninstall,
    InstallExisting,
    Enable,
}

/// One command of a flow.
#[derive(Debug, Clone, Copy)]
pub enum OtaOp {
    /// `settings put {scope} {key} {value}`.
    Setting { scope: &'static str, key: &'static str, value: &'static str },
    /// A package command.
    Package { op: PackageOp, package: &'static str },
}

/// An `OtaOp` over plain values.
pub enum OtaOpView {
    Setting(Seq<char>, Seq<char>, Seq<char>),
    Package(PackageOp, Seq<char>),
}

impl View for OtaOp {
    type V = OtaOpView;

    open spec fn view(&self) -> OtaOpView {
        match self {
            OtaOp::Setting { scope, key, value } => OtaOpView::Setting(scope@, key@, value@),
            OtaOp::Package { op, package } => OtaOpView::Package(*op, package@),
        }
    }
}

/// The packages whose uninstallation turns updates off.
pub open spec fn disable_packages() -> Seq<Seq<char>> {
    seq!["com.lenovo.ota"@, "com.tblenovo.lenovowhatsnew"@, "com.lenovo.tbengine"@]
}

/// The packages restored and enabled to turn updates on.
pub open spec fn enable_packages() -> Seq<Seq<char>> {
    seq![
        "com.zui.homesettings"@,
        "com.lenovo.tbengine"@,
        "com.lenovo.ue.device"@,
        "com.lenovo.ota"@,
        "com.zui.safecenter"@,
    ]
}

/// The number of commands of a flow.
pub open spec fn ota_op_count(flow: OtaFlow) -> nat {
    match flow {
        OtaFlow::Disable => 8,
        OtaFlow::Enable => 10,
    }
}

/// Command `i` of a flow: turning updates off sets five settings and
/// uninstalls three packages for the user; turning them on restores five
/// packages, then enables the same five.
pub open spec fn ota_op_at(flow: OtaFlow, i: int) -> OtaOpView {
    match flow {
        OtaFlow::Disable => if i == 0 {
            OtaOpView::Setting("global"@, "ota_disable_automatic_update"@, "1"@)
        } else if i == 1 {
            OtaOpView::Setting("global"@, "setup_wizard_privacy_auto_update"@, "0"@)
        } else if i == 2 {
            OtaOpView::Setting("global"@, "setup_wizard_privacy_ota_key"@, "0"@)
        } else if i == 3 {
            OtaOpView::Setting("system"@, "ota_network_permission"@, "0"@)
        } else if i == 4 {
            OtaOpView::Setting("secure"@, "lenovo_ota_new_version_found"@, "0"@)
        } else {
            OtaOpView::Package(PackageOp::Uninstall, disable_packages()[i - 5])
        },
        OtaFlow::Enable => if i < 5 {
            OtaOpView::Package(PackageOp::InstallExisting, enable_packages()[i])
        } else {
            OtaOpView::Package(PackageOp::Enable, enable_packages()[i - 5])
        },
    }
}

/// The value that turns updates off for each setting the disable flow sets.
pub open spec fn updates_off_value(key: Seq<char>) -> Option<Seq<char>> {
    if key == "ota_disable_automatic_update"@ {
        Some("1"@)
    } else if key == "setup_wizard_privacy_auto_update"@ || key == "setup_wizard_privacy_ota_key"@
        || key == "ota_network_permission"@ || key == "lenovo_ota_new_version_found"@ {
        Some("0"@)
    } else {
        None
    }
}

/// Turning updates off sets each of the five update settings, each to the
/// value that turns updates off (`ota_disable_automatic_update` to `1`, the
/// others to `0`), sets nothing else, and uninstalls the OTA package; turning
/// updates on changes no setting.
pub proof fn lemma_disable_turns_updates_off()
    ensures
        forall|i: int|
            0 <= i < ota_op_count(OtaFlow::Disable) ==> (#[trigger] ota_op_at(OtaFlow::Disable, i) matches OtaOpView::Setting(_, k, v)
                ==> updates_off_value(k) == Some(v)),
        forall|k: Seq<char>|
            #[trigger] updates_off_value(k) is Some ==> exists|i: int|
                0 <= i < ota_op_count(OtaFlow::Disable) && (#[trigger] ota_op_at(OtaFlow::Disable, i) matches OtaOpView::Setting(_, k2, _)
                    && k2 == k),
        exists|i: int|
            0 <= i < ota_op_count(OtaFlow::Disable) && #[trigger] ota_op_at(OtaFlow::Disable, i)
                == OtaOpView::Package(PackageOp::Uninstall, "com.lenovo.ota"@),
        forall|i: int|
            0 <= i < ota_op_count(OtaFlow::Enable) ==> #[trigger] ota_op_at(OtaFlow::Enable, i) is Package,
{
    reveal_strlit("ota_disable_automatic_update");
    reveal_strlit("setup_wizard_privacy_auto_update");
    reveal_strlit("setup_wizard_privacy_ota_key");
    reveal_strlit("ota_network_permission");
    reveal_strlit("lenovo_ota_new_version_found");
    assert forall|i: int|
        0 <= i < ota_op_count(OtaFlow::Disable) implies (#[trigger] ota_op_at(OtaFlow::Disable, i) matches OtaOpView::Setting(_, k, v)
        ==> updates_off_value(k) == Some(v)) by {
        if i == 0 {
            assert(updates_off_value("ota_disable_automatic_update"@) == Some("1"@));
        } else if i == 1 {
            assert("setup_wizard_privacy_auto_update"@[0] != "ota_disable_automatic_update"@[0]);
            assert(updates_off_value("setup_wizard_privacy_auto_update"@) == Some("0"@));
        } else if i == 2 {
            assert("setup_wizard_privacy_ota_key"@[0] != "ota_disable_automatic_update"@[0]);
            assert(updates_off_value("setup_wizard_privacy_ota_key"@) == Some("0"@));
        } else if i == 3 {
            assert("ota_network_permission"@[4] != "ota_disable_automatic_update"@[4]);
            assert(updates_off_value("ota_network_permission"@) == Some("0"@));
        } else if i == 4 {
            assert("lenovo_ota_new_version_found"@[0] != "ota_disable_automatic_update"@[0]);
            assert(updates_off_value("lenovo_ota_new_version_found"@) == Some("0"@));
        }
    }
    assert(ota_op_at(OtaFlow::Disable, 0) is Setting);
    assert(ota_op_at(OtaFlow::Disable, 1) is Setting);
    assert(ota_op_at(OtaFlow::Disable, 2) is Setting);
    assert(ota_op_at(OtaFlow::Disable, 3) is Setting);
    assert(ota_op_at(OtaFlow::Disable, 4) is Setting);
    assert(ota_op_at(OtaFlow::Disable, 5) == OtaOpView::Package(PackageOp::Uninstall, "com.lenovo.ota"@));
}

/// Turning updates on first restores each of its packages, in order, then
/// enables the same packages in the same order, and restores the OTA package.
pub proof fn lemma_enable_restores_then_enables()
    ensures
        forall|i: int|
            0 <= i < 5 ==> (#[trigger] ota_op_at(OtaFlow::Enable, i) matches OtaOpView::Package(
                PackageOp::InstallExisting,
                p,
            ) && ota_op_at(OtaFlow::Enable, i + 5) == OtaOpView::Package(PackageOp::Enable, p)),
        exists|i: int|
            0 <= i < ota_op_count(OtaFlow::Enable) && #[trigger] ota_op_at(OtaFlow::Enable, i)
                == OtaOpView::Package(PackageOp::InstallExisting, "com.lenovo.ota"@),
{
    assert(ota_op_at(OtaFlow::Enable, 3) == OtaOpView::Package(PackageOp::InstallExisting, "com.lenovo.ota"@));
}

/// The shell command of an operation.
pub open spec fn op_command_text(op: OtaOpView) -> Seq<char> {
    match op {
        OtaOpView::Setting(s, k, v) => "settings put "@ + s + " "@ + k + " "@ + v,
        OtaOpView::Package(PackageOp::Uninstall, p) => "pm uninstall -k --user 0 "@ + p,
        OtaOpView::Package(PackageOp::InstallExisting, p) => "cmd package install-existing --user 0 "@ + p,
        OtaOpView::Package(PackageOp::Enable, p) => "pm enable --user 0 "@ + p,
    }
}

/// How a package operation is named in the log.
pub open spec fn package_verb(op: PackageOp) -> Seq<char> {
    match op {
        PackageOp::Uninstall => "비활성화"@,
        PackageOp::InstallExisting => "복원"@,
        PackageOp::Enable => "활성화"@,
    }
}

/// The log line of an operation's outcome (the output, or the error as shown).
pub open spec fn op_log_text(op: OtaOpView, outcome: Result<Seq<char>, Seq<char>>) -> Seq<char> {
    match op {
        OtaOpView::Setting(s, k, v) => match outcome {
            Ok(_) => "[OTA] 설정 적용: "@ + s + " "@ + k + "="@ + v,
            Err(e) => "[OTA] 설정 적용 실패: "@ + s + " "@ + k + " / "@ + e,
        },
        OtaOpView::Package(o, p) => match outcome {
            Ok(out) => if trim(out).len() == 0 {
                "[OTA] 패키지 "@ + package_verb(o) + ": "@ + p
            } else {
                "[OTA] 패키지 "@ + package_verb(o) + ": "@ + p + " / "@ + out
            },
            Err(e) => "[OTA] 패키지 "@ + package_verb(o) + " 확인 필요: "@ + p + " / "@ + e,
        },
    }
}

/// Operation `i` of a flow.
pub fn ota_op(flow: OtaFlow, i: usize) -> (r: OtaOp)
    requires
        i < ota_op_count(flow),
    ensures
        r@ == ota_op_at(flow, i as int),
{
    match flow {
        OtaFlow::Disable => if i == 0 {
            OtaOp::Setting { scope: "global", key: "ota_disable_automatic_update", value: "1" }
        } else if i == 1 {
            OtaOp::Setting { scope: "global", key: "setup_wizard_privacy_auto_update", value: "0" }
        } else if i == 2 {
            OtaOp::Setting { scope: "global", key: "setup_wizard_privacy_ota_key", value: "0" }
        } else if i == 3 {
            OtaOp::Setting { scope: "system", key: "ota_network_permission", value: "0" }
        } else if i == 4 {
            OtaOp::Setting { scope: "secure", key: "lenovo_ota_new_version_found", value: "0" }
        } else if i == 5 {
            OtaOp::Package { op: PackageOp::Uninstall, package: "com.lenovo.ota" }
        } else if i == 6 {
            OtaOp::Package { op: PackageOp::Uninstall, package: "com.tblenovo.lenovowhatsnew" }
        } else {
            OtaOp::Package { op: PackageOp::Uninstall, package: "com.lenovo.tbengine" }
        },
        OtaFlow::Enable => {
            let op = if i < 5 {
                PackageOp::InstallExisting
            } else {
                PackageOp::Enable
            };
            let k = if i < 5 {
                i
            } else {
                i - 5
            };
            let package = if k == 0 {
                "com.zui.homesettings"
            } else if k == 1 {
                "com.lenovo.tbengine"
            } else if k == 2 {
                "com.lenovo.ue.device"
            } else if k == 3 {
                "com.lenovo.ota"
            } else {
                "com.zui.safecenter"
            };
            OtaOp::Package { op, package }
        },
    }
}

/// The shell command of an operation.
pub fn op_command(op: &OtaOp) -> (r: String)
    ensures
        r@ == op_command_text(op@),
{
    match op {
        OtaOp::Setting { scope, key, value } => {
            let mut c = chars_of("settings put ");
            append_str(&mut c, scope);
            append_str(&mut c, " ");
            append_str(&mut c, key);
            append_str(&mut c, " ");
            append_str(&mut c, value);
            string_of(c.as_slice())
        },
        OtaOp::Package { op, package } => {
            let mut c = match op {
                PackageOp::Uninstall => chars_of("pm uninstall -k --user 0 "),
                PackageOp::InstallExisting => chars_of("cmd package install-existing --user 0 "),
                PackageOp::Enable => chars_of("pm enable --user 0 "),
            };
            append_str(&mut c, package);
            string_of(c.as_slice())
        },
    }
}

/// The view of an outcome.
pub open spec fn outcome_view(r: Result<String, String>) -> Result<Seq<char>, Seq<char>> {
    match r {
        Ok(s) => Ok(s@),
        Err(e) => Err(e@),
    }
}

/// The log line of an operation's outcome.
pub fn op_log(op: &OtaOp, outcome: &Result<String, String>) -> (r: String)
    ensures
        r@ == op_log_text(op@, outcome_view(*outcome)),
{
    match op {
        OtaOp::Setting { scope, key, value } => {
            let mut c = match outcome {
                Ok(_) => chars_of("[OTA] 설정 적용: "),
                Err(_) => chars_of("[OTA] 설정 적용 실패: "),
            };
            append_str(&mut c, scope);
            append_str(&mut c, " ");
            append_str(&mut c, key);
            match outcome {
                Ok(_) => {
                    append_str(&mut c, "=");
                    append_str(&mut c, value);
                },
                Err(e) => {
                    append_str(&mut c, " / ");
                    append_str(&mut c, e.as_str());
                },
            }
            string_of(c.as_slice())
        },
        OtaOp::Package { op, package } => {
            let mut c = chars_of("[OTA] 패키지 ");
            match op {
                PackageOp::Uninstall => append_str(&mut c, "비활성화"),
                PackageOp::InstallExisting => append_str(&mut c, "복원"),
                PackageOp::Enable => append_str(&mut c, "활성화"),
            }
            match outcome {
                Ok(out) => {
                    append_str(&mut c, ": ");
                    append_str(&mut c, package);
                    let o = chars_of(out.as_str());
                    let t = trim_vec(o.as_slice());
                    if t.len() > 0 {
                        append_str(&mut c, " / ");
                        append(&mut c, o.as_slice());
                    }
                },
                Err(e) => {
                    append_str(&mut c, " 확인 필요: ");
                    append_str(&mut c, package);
                    append_str(&mut c, " / ");
                    append_str(&mut c, e.as_str());
                },
            }
            string_of(c.as_slice())
        },
    }
}

/// Where a flow stands.
#[derive(Debug, Clone, Copy, PartialEq, Eq, Structural)]
pub enum OtaStage {
    Start,
    AwaitAdb,
    /// Waiting for the ROM region (turning updates on).
    AwaitRegion,
    /// Waiting for the outcome of operation `index`.
    Run { index: usize },
}

/// What the program is asked to do and report back.
pub enum OtaRequest {
    /// Wait until a USB ADB device is ready (failing at once when there is
    /// no USB ADB candidate).
    WaitAdb,
    /// Run a shell command on the device.
    Shell(String),
}

/// The outcome of a request.
pub enum OtaEvent {
    Begin,
    /// The outcome of `WaitAdb`.
    Ready(Result<(), LpmError>),
    /// The output of a shell command, or its error as it is shown.
    Reply(Result<String, String>),
}

/// What the program does on the way.
pub enum OtaAction {
    /// Stop running adb programs and servers and point adb at the stable key.
    PrepareUsb,
    Log(String),
    /// Ask the local adb server to stop; the outcome is ignored.
    KillAdbServer,
}

/// An `OtaAction` over plain values.
pub enum OtaActionView {
    PrepareUsb,
    Log(Seq<char>),
    KillAdbServer,
}

impl View for OtaAction {
    type V = OtaActionView;

    open spec fn view(&self) -> OtaActionView {
        match self {
            OtaAction::PrepareUsb => OtaActionView::PrepareUsb,
            OtaAction::Log(s) => OtaActionView::Log(s@),
            OtaAction::KillAdbServer => OtaActionView::KillAdbServer,
        }
    }
}

/// The views of a list of actions.
pub open spec fn ota_actions_view(a: Seq<OtaAction>) -> Seq<OtaActionView> {
    a.map_values(|x: OtaAction| x@)
}

/// What follows a step.
pub enum OtaNext {
    Await(OtaRequest, OtaStage),
    Finish(Result<(), LpmError>),
}

/// One step of a flow.
pub struct OtaStep {
    pub actions: Vec<OtaAction>,
    pub next: OtaNext,
}

/// The stages a flow can be in.
pub open spec fn ota_stage_valid(flow: OtaFlow, stage: OtaStage) -> bool {
    match stage {
        OtaStage::Run { index } => index < ota_op_count(flow),
        OtaStage::AwaitRegion => flow == OtaFlow::Enable,
        _ => true,
    }
}

/// Whether an event is the outcome of what a stage waits for.
pub open spec fn ota_event_fits(stage: OtaStage, event: OtaEvent) -> bool {
    match stage {
        OtaStage::Start => event is Begin,
        OtaStage::AwaitAdb => event is Ready,
        _ => event is Reply,
    }
}

/// The log lines shown before operation `i`.
pub open spec fn ota_header(flow: OtaFlow, i: int) -> Seq<OtaActionView> {
    match flow {
        OtaFlow::Disable => if i == 0 {
            seq![OtaActionView::Log("[OTA] 업데이트 자동 동작을 비활성화합니다."@)]
        } else if i == 5 {
            seq![OtaActionView::Log("[OTA] 업데이트 관련 패키지를 비활성화합니다."@)]
        } else {
            seq![]
        },
        OtaFlow::Enable => if i == 0 {
            seq![OtaActionView::Log("[OTA] 업데이트 관련 패키지를 복원합니다."@)]
        } else {
            seq![]
        },
    }
}

/// The actions after the last operation.
pub open spec fn ota_footer(flow: OtaFlow) -> Seq<OtaActionView> {
    match flow {
        OtaFlow::Disable => seq![OtaActionView::KillAdbServer],
        OtaFlow::Enable => seq![
            OtaActionView::Log("[OTA] 설정 → 시스템 업데이트에서 OTA 상태를 확인해주세요."@),
            OtaActionView::KillAdbServer,
        ],
    }
}

/// Operation `i` is asked for next, with its header logged first.
pub open spec fn runs_op(flow: OtaFlow, i: int, before: Seq<OtaActionView>, step: OtaStep) -> bool {
    &&& ota_actions_view(step.actions@) == before + ota_header(flow, i)
    &&& step.next matches OtaNext::Await(OtaRequest::Shell(c), OtaStage::Run { index })
    &&& index == i
    &&& c@ == op_command_text(ota_op_at(flow, i))
}

/// The ROM region read from the device: trimmed and in ASCII upper case, empty
/// when it could not be read.
pub open spec fn region_reply_text(reply: Result<String, String>) -> Seq<char> {
    match reply {
        Ok(v) => ascii_upper(trim(v@)),
        Err(_) => seq![],
    }
}

/// What one step of a flow does, by the stage and the event.
pub open spec fn ota_step_spec(flow: OtaFlow, stage: OtaStage, event: OtaEvent, step: OtaStep) -> bool {
    let acts = ota_actions_view(step.actions@);
    match stage {
        OtaStage::Start => {
            &&& acts == seq![
                OtaActionView::PrepareUsb,
                OtaActionView::Log(spinner_text("ota_adb_detect"@, "[OTA] USB ADB 기기 감지 중... │"@)),
                OtaActionView::Log(unauthorized_guide()),
            ]
            &&& step.next matches OtaNext::Await(OtaRequest::WaitAdb, OtaStage::AwaitAdb)
        },
        OtaStage::AwaitAdb => match event {
            OtaEvent::Ready(Err(e)) => acts.len() == 0 && step.next == OtaNext::Finish(Err(e)),
            OtaEvent::Ready(Ok(())) => {
                let ready = seq![OtaActionView::Log(spinner_text("ota_adb_detect"@, "[OTA] USB ADB 기기 감지 완료"@))];
                match flow {
                    OtaFlow::Disable => runs_op(flow, 0, ready, step),
                    OtaFlow::Enable => {
                        &&& acts == ready
                        &&& step.next matches OtaNext::Await(OtaRequest::Shell(c), OtaStage::AwaitRegion)
                        &&& c@ == "getprop ro.config.zui.region"@
                    },
                }
            },
            _ => false,
        },
        OtaStage::AwaitRegion => match event {
            OtaEvent::Reply(reply) => {
                let region = region_reply_text(reply);
                let shown: Seq<OtaActionView> = if region.len() > 0 {
                    seq![OtaActionView::Log("[OTA] 기기에 설치된 ROM 타입: "@ + region)]
                } else {
                    seq![]
                };
                if region == "ROW"@ {
                    &&& acts == shown + seq![
                        OtaActionView::Log("[OTA] ROW(글로벌롬)은 OTA 활성화 작업을 건너뜁니다."@),
                        OtaActionView::KillAdbServer,
                    ]
                    &&& step.next == OtaNext::Finish(Ok(()))
                } else {
                    runs_op(flow, 0, shown, step)
                }
            },
            _ => false,
        },
        OtaStage::Run { index } => match event {
            OtaEvent::Reply(reply) => {
                let logged = seq![OtaActionView::Log(op_log_text(ota_op_at(flow, index as int), outcome_view(reply)))];
                if index + 1 < ota_op_count(flow) {
                    runs_op(flow, index + 1, logged, step)
                } else {
                    &&& acts == logged + ota_footer(flow)
                    &&& step.next == OtaNext::Finish(Ok(()))
                }
            },
            _ => false,
        },
    }
}

/// The header of operation `i`.
fn ota_header_exec(flow: OtaFlow, i: usize, acts: &mut Vec<OtaAction>)
    ensures
        ota_actions_view(final(acts)@) == ota_actions_view(old(acts)@) + ota_header(flow, i as int),
{
    let ghost start = acts@;
    match flow {
        OtaFlow::Disable => if i == 0 {
            acts.push(OtaAction::Log("[OTA] 업데이트 자동 동작을 비활성화합니다.".to_string()));
        } else if i == 5 {
            acts.push(OtaAction::Log("[OTA] 업데이트 관련 패키지를 비활성화합니다.".to_string()));
        },
        OtaFlow::Enable => if i == 0 {
            acts.push(OtaAction::Log("[OTA] 업데이트 관련 패키지를 복원합니다.".to_string()));
        },
    }
    assert(ota_actions_view(acts@) =~= ota_actions_view(start) + ota_header(flow, i as int));
}

/// Ask for operation `i`, after its header.
fn run_op(flow: OtaFlow, i: usize, acts: Vec<OtaAction>) -> (step: OtaStep)
    requires
        i < ota_op_count(flow),
    ensures
        runs_op(flow, i as int, ota_actions_view(acts@), step),
{
    let mut acts = acts;
    ota_header_exec(flow, i, &mut acts);
    let op = ota_op(flow, i);
    let c = op_command(&op);
    OtaStep { actions: acts, next: OtaNext::Await(OtaRequest::Shell(c), OtaStage::Run { index: i }) }
}

/// One step of either flow.
fn ota_step(flow: OtaFlow, stage: OtaStage, event: OtaEvent) -> (step: OtaStep)
    requires
        ota_stage_valid(flow, stage),
        ota_event_fits(stage, event),
    ensures
        ota_step_spec(flow, stage, event, step),
{
    match stage {
        OtaStage::Start => {
            let mut acts: Vec<OtaAction> = Vec::new();
            acts.push(OtaAction::PrepareUsb);
            acts.push(OtaAction::Log(spinner_log("ota_adb_detect", "[OTA] USB ADB 기기 감지 중... │")));
            acts.push(OtaAction::Log(adb_unauthorized_guide().to_string()));
            let step = OtaStep { actions: acts, next: OtaNext::Await(OtaRequest::WaitAdb, OtaStage::AwaitAdb) };
            assert(ota_actions_view(step.actions@) =~= seq![
                OtaActionView::PrepareUsb,
                OtaActionView::Log(spinner_text("ota_adb_detect"@, "[OTA] USB ADB 기기 감지 중... │"@)),
                OtaActionView::Log(unauthorized_guide()),
            ]);
            step
        },
        OtaStage::AwaitAdb => match event {
            OtaEvent::Ready(Err(e)) => OtaStep { actions: Vec::new(), next: OtaNext::Finish(Err(e)) },
            _ => {
                let mut acts: Vec<OtaAction> = Vec::new();
                acts.push(OtaAction::Log(spinner_log("ota_adb_detect", "[OTA] USB ADB 기기 감지 완료")));
                let ghost ready = seq![OtaActionView::Log(spinner_text("ota_adb_detect"@, "[OTA] USB ADB 기기 감지 완료"@))];
                assert(ota_actions_view(acts@) =~= ready);
                match flow {
                    OtaFlow::Disable => run_op(flow, 0, acts),
                    OtaFlow::Enable => OtaStep {
                        actions: acts,
                        next: OtaNext::Await(
                            OtaRequest::Shell("getprop ro.config.zui.region".to_string()),
                            OtaStage::AwaitRegion,
                        ),
                    },
                }
            },
        },
        OtaStage::AwaitRegion => match event {
            OtaEvent::Reply(reply) => {
                let ghost region_v = region_reply_text(reply);
                let region = match &reply {
                    Ok(v) => {
                        let c = chars_of(v.as_str());
                        let t = trim_vec(c.as_slice());
                        ascii_upper_vec(t.as_slice())
                    },
                    Err(_) => Vec::new(),
                };
                assert(region@ == region_v);
                let mut acts: Vec<OtaAction> = Vec::new();
                if region.len() > 0 {
                    let mut l = chars_of("[OTA] 기기에 설치된 ROM 타입: ");
                    append(&mut l, region.as_slice());
                    acts.push(OtaAction::Log(string_of(l.as_slice())));
                }
                let ghost shown: Seq<OtaActionView> = if region_v.len() > 0 {
                    seq![OtaActionView::Log("[OTA] 기기에 설치된 ROM 타입: "@ + region_v)]
                } else {
                    seq![]
                };
                assert(ota_actions_view(acts@) =~= shown);
                if chars_eq_str(region.as_slice(), "ROW") {
                    acts.push(OtaAction::Log("[OTA] ROW(글로벌롬)은 OTA 활성화 작업을 건너뜁니다.".to_string()));
                    acts.push(OtaAction::KillAdbServer);
                    let step = OtaStep { actions: acts, next: OtaNext::Finish(Ok(())) };
                    assert(ota_actions_view(step.actions@) =~= shown + seq![
                        OtaActionView::Log("[OTA] ROW(글로벌롬)은 OTA 활성화 작업을 건너뜁니다."@),
                        OtaActionView::KillAdbServer,
                    ]);
                    step
                } else {
                    run_op(flow, 0, acts)
                }
            },
            _ => OtaStep { actions: Vec::new(), next: OtaNext::Finish(Ok(())) },
        },
        OtaStage::Run { index } => match event {
            OtaEvent::Reply(reply) => {
                let op = ota_op(flow, index);
                let line = op_log(&op, &reply);
                let mut acts: Vec<OtaAction> = Vec::new();
                acts.push(OtaAction::Log(line));
                let ghost logged = seq![
                    OtaActionView::Log(op_log_text(ota_op_at(flow, index as int), outcome_view(reply))),
                ];
                assert(ota_actions_view(acts@) =~= logged);
                let count: usize = match flow {
                    OtaFlow::Disable => 8,
                    OtaFlow::Enable => 10,
                };
                if index + 1 < count {
                    run_op(flow, index + 1, acts)
                } else {
                    match flow {
                        OtaFlow::Disable => {},
                        OtaFlow::Enable => {
                            acts.push(
                                OtaAction::Log(
                                    "[OTA] 설정 → 시스템 업데이트에서 OTA 상태를 확인해주세요.".to_string(),
                                ),
                            );
                        },
                    }
                    acts.push(OtaAction::KillAdbServer);
                    let step = OtaStep { actions: acts, next: OtaNext::Finish(Ok(())) };
                    assert(ota_actions_view(step.actions@) =~= logged + ota_footer(flow));
                    step
                }
            },
            _ => OtaStep { actions: Vec::new(), next: OtaNext::Finish(Ok(())) },
        },
    }
}

/// `disable_ota_updates`, one step at a time: from the stage and the outcome
/// of what it waited for, the actions to perform and what follows.
pub fn disable_ota_updates(stage: OtaStage, event: OtaEvent) -> (step: OtaStep)
    requires
        ota_stage_valid(OtaFlow::Disable, stage),
        ota_event_fits(stage, event),
    ensures
        ota_step_spec(OtaFlow::Disable, stage, event, step),
        step.next matches OtaNext::Await(_, next) ==> ota_stage_valid(OtaFlow::Disable, next),
{
    ota_step(OtaFlow::Disable, stage, event)
}

/// `enable_ota_updates`, one step at a time: from the stage and the outcome
/// of what it waited for, the actions to perform and what follows.
pub fn enable_ota_updates(stage: OtaStage, event: OtaEvent) -> (step: OtaStep)
    requires
        ota_stage_valid(OtaFlow::Enable, stage),
        ota_event_fits(stage, event),
    ensures
        ota_step_spec(OtaFlow::Enable, stage, event, step),
        step.next matches OtaNext::Await(_, next) ==> ota_stage_valid(OtaFlow::Enable, next),
{
    ota_step(OtaFlow::Enable, stage, event)
}

/// Whether a flow may take this stage and event.
pub fn ota_step_allowed(flow: OtaFlow, stage: &OtaStage, event: &OtaEvent) -> (b: bool)
    ensures
        b == (ota_stage_valid(flow, *stage) && ota_event_fits(*stage, *event)),
{
    match stage {
        OtaStage::Start => matches!(event, OtaEvent::Begin),
        OtaStage::AwaitAdb => matches!(event, OtaEvent::Ready(_)),
        OtaStage::AwaitRegion => flow == OtaFlow::Enable && matches!(event, OtaEvent::Reply(_)),
        OtaStage::Run { index } => {
            let count: usize = match flow {
                OtaFlow::Disable => 8,
                OtaFlow::Enable => 10,
            };
            *index < count && matches!(event, OtaEvent::Reply(_))
        },
    }
}

/// Once the device is ready, a flow never fails: each command's failure is
/// logged and the next command is asked for, until the flow ends in success.
pub proof fn lemma_ota_commands_never_fail(flow: OtaFlow, stage: OtaStage, event: OtaEvent, step: OtaStep)
    requires
        ota_step_spec(flow, stage, event, step),
        stage == OtaStage::AwaitRegion || stage is Run,
    ensures
        step.next matches OtaNext::Finish(r) ==> r is Ok,
        step.next matches OtaNext::Await(_, OtaStage::Run { index }) ==> (match stage {
            OtaStage::Run { index: i } => index == i + 1,
            _ => index == 0,
        }),
{
}

} // verus!
