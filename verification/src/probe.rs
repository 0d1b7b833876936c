//! Probing a tablet over ADB before a data-wiping installation: it must run
//! Android 15 or later on a MediaTek platform; its model, region and boot
//! slot are read on the way.
//!
//! The decisions are a state machine: the program performs each request and
//! hands its outcome back as the next event.
use vstd::prelude::*;
use crate::device::{
    android_major, android_major_of, android_version_gate, check_mtk_platform, empty_to_none,
    normalize_region, normalize_slot_suffix, region_label, region_of_prop, region_text,
    slot_suffix_of, spinner_log, spinner_text, unauthorized_guide, adb_unauthorized_guide,
};
use crate::guard::opt_view;
use crate::model::{LpmError, RomRegion};
use crate::text::{append, append_str, chars_of, dec, dec_exec, starts_with, string_of, trim, trim_vec, unicode_upper};

verus! {

/// What a tablet told a probe before a data-wiping installation.
#[derive(Debug, Clone)]
pub struct AdbDeviceProbe {
    pub android_version: Option<String>,
    pub android_major: Option<u32>,
    pub platform: String,
    pub model: String,
    pub region: RomRegion,
    pub current_slot: Option<String>,
}

/// An `AdbDeviceProbe` over plain values.
pub struct ProbeView {
    pub android_version: Option<Seq<char>>,
    pub android_major: Option<u32>,
    pub platform: Seq<char>,
    pub model: Seq<char>,
    pub region: RomRegion,
    pub current_slot: Option<Seq<char>>,
}

impl View for AdbDeviceProbe {
    type V = ProbeView;

    open spec fn view(&self) -> ProbeView {
        ProbeView {
            android_version: opt_view(self.android_version),
            android_major: self.android_major,
            platform: self.platform@,
            model: self.model@,
            region: self.region,
            current_slot: opt_view(self.current_slot),
        }
    }
}

/// A device property the probe reads over `adb shell getprop`.
#[derive(Debug, Clone, Copy, PartialEq, Eq, Structural)]
pub enum ProbeQuery {
    AndroidVersion,
    Platform,
    Model,
    HardwareVersion,
    Region,
    SlotSuffix,
}

/// The shell command that reads a property.
pub open spec fn query_command_text(q: ProbeQuery) -> Seq<char> {
    match q {
        ProbeQuery::AndroidVersion => "getprop ro.build.version.release"@,
        ProbeQuery::Platform => "getprop ro.vendor.mediatek.platform"@,
        ProbeQuery::Model => "getprop ro.product.model"@,
        ProbeQuery::HardwareVersion => "getprop ro.vendor.config.lgsi.hw.version"@,
        ProbeQuery::Region => "getprop ro.config.zui.region"@,
        ProbeQuery::SlotSuffix => "getprop ro.boot.slot_suffix"@,
    }
}

/// The shell command that reads a property.
pub fn query_command(q: ProbeQuery) -> (r: &'static str)
    ensures
        r@ == query_command_text(q),
{
    match q {
        ProbeQuery::AndroidVersion => "getprop ro.build.version.release",
        ProbeQuery::Platform => "getprop ro.vendor.mediatek.platform",
        ProbeQuery::Model => "getprop ro.product.model",
        ProbeQuery::HardwareVersion => "getprop ro.vendor.config.lgsi.hw.version",
        ProbeQuery::Region => "getprop ro.config.zui.region",
        ProbeQuery::SlotSuffix => "getprop ro.boot.slot_suffix",
    }
}

/// Where the probe stands; the partial result holds what is known so far.
pub enum ProbeStage {
    Start,
    AwaitAdb,
    AwaitVersion,
    AwaitPlatform(AdbDeviceProbe),
    AwaitModel(AdbDeviceProbe),
    AwaitHardwareVersion(AdbDeviceProbe),
    AwaitRegion(AdbDeviceProbe),
    AwaitSlot(AdbDeviceProbe),
}

/// What the program is asked to do and report back.
#[derive(Debug, Clone, Copy, PartialEq, Eq, Structural)]
pub enum ProbeRequest {
    /// Wait until a USB ADB device is ready (failing at once when there is
    /// no USB ADB candidate).
    WaitAdb,
    /// Run the shell command of a query on the device.
    Query(ProbeQuery),
}

/// The outcome of a request.
pub enum ProbeEvent {
    Begin,
    /// The outcome of `WaitAdb`.
    Ready(Result<(), LpmError>),
    /// The output of a query, or its error.
    Reply(Result<String, LpmError>),
}

/// What the program does on the way.
pub enum ProbeAction {
    /// Stop running adb programs and servers and point adb at the stable key.
    PrepareUsb,
    Log(String),
}

/// A `ProbeAction` over plain values.
pub enum ProbeActionView {
    PrepareUsb,
    Log(Seq<char>),
}

impl View for ProbeAction {
    type V = ProbeActionView;

    open spec fn view(&self) -> ProbeActionView {
        match self {
            ProbeAction::PrepareUsb => ProbeActionView::PrepareUsb,
            ProbeAction::Log(s) => ProbeActionView::Log(s@),
        }
    }
}

/// The views of a list of actions.
pub open spec fn probe_actions_view(a: Seq<ProbeAction>) -> Seq<ProbeActionView> {
    a.map_values(|x: ProbeAction| x@)
}

/// What follows a step.
pub enum ProbeNext {
    Await(ProbeRequest, ProbeStage),
    Finish(Result<AdbDeviceProbe, LpmError>),
}

/// One step of the probe.
pub struct ProbeStep {
    pub actions: Vec<ProbeAction>,
    pub next: ProbeNext,
}

/// Whether an event is the outcome of what a stage waits for.
pub open spec fn probe_event_fits(stage: ProbeStage, event: ProbeEvent) -> bool {
    match stage {
        ProbeStage::Start => event is Begin,
        ProbeStage::AwaitAdb => event is Ready,
        _ => event is Reply,
    }
}

/// The logs after the Android version was read.
pub open spec fn version_logs(major: Option<nat>) -> Seq<ProbeActionView> {
    match major {
        Some(m) => seq![ProbeActionView::Log("[ADB] Android 버전: "@ + dec(m))],
        None => seq![ProbeActionView::Log("[ADB] Android 버전 감지 실패"@)],
    }
}

/// The model a hardware-version reply gives: the trimmed value, or `UNKNOWN`
/// when it is empty or could not be read.
pub open spec fn fallback_model(reply: Result<String, LpmError>) -> Seq<char> {
    match reply {
        Ok(v) if trim(v@).len() > 0 => trim(v@),
        _ => "UNKNOWN"@,
    }
}

/// The slot a slot-suffix reply gives (none when it could not be read).
pub open spec fn reply_slot(reply: Result<String, LpmError>) -> Option<Seq<char>> {
    match reply {
        Ok(v) => slot_suffix_of(v@),
        Err(_) => None,
    }
}

/// What one step does, by the stage and the event.
pub open spec fn probe_step_spec(stage: ProbeStage, event: ProbeEvent, step: ProbeStep) -> bool {
    let acts = probe_actions_view(step.actions@);
    match stage {
        ProbeStage::Start => {
            &&& acts == seq![
                ProbeActionView::PrepareUsb,
                ProbeActionView::Log(spinner_text("adb_detect_start"@, "[ADB] 기기 감지 │"@)),
                ProbeActionView::Log(unauthorized_guide()),
            ]
            &&& step.next matches ProbeNext::Await(ProbeRequest::WaitAdb, ProbeStage::AwaitAdb)
        },
        ProbeStage::AwaitAdb => match event {
            ProbeEvent::Ready(Err(e)) => acts.len() == 0 && step.next == ProbeNext::Finish(Err(e)),
            ProbeEvent::Ready(Ok(())) => {
                &&& acts == seq![ProbeActionView::Log(spinner_text("adb_detect_start"@, "[ADB] 기기 감지 완료"@))]
                &&& step.next matches ProbeNext::Await(
                    ProbeRequest::Query(ProbeQuery::AndroidVersion),
                    ProbeStage::AwaitVersion,
                )
            },
            _ => false,
        },
        ProbeStage::AwaitVersion => match event {
            ProbeEvent::Reply(Err(e)) => acts.len() == 0 && step.next == ProbeNext::Finish(Err(e)),
            ProbeEvent::Reply(Ok(out)) => {
                let version = if trim(out@).len() > 0 { Some(trim(out@)) } else { None };
                let major = android_major_of(version);
                &&& acts == version_logs(major)
                &&& if major matches Some(m) && m <= 14 {
                    &&& step.next matches ProbeNext::Finish(Err(LpmError::Adb(msg)))
                    &&& msg@ == "Android "@ + dec(major->0)
                        + " 기기는 1번 설치 흐름에서 차단됩니다. Android 15 이상에서만 진행합니다."@
                } else {
                    &&& step.next matches ProbeNext::Await(
                        ProbeRequest::Query(ProbeQuery::Platform),
                        ProbeStage::AwaitPlatform(p),
                    )
                    &&& p@.android_version == version
                    &&& (match p@.android_major {
                        Some(m) => major == Some(m as nat),
                        None => major is None,
                    })
                }
            },
            _ => false,
        },
        ProbeStage::AwaitPlatform(p) => match event {
            ProbeEvent::Reply(Err(e)) => acts.len() == 0 && step.next == ProbeNext::Finish(Err(e)),
            ProbeEvent::Reply(Ok(out)) => {
                let platform = trim(out@);
                if platform.len() == 0 || !starts_with(unicode_upper(platform), "MT"@) {
                    &&& acts.len() == 0
                    &&& step.next matches ProbeNext::Finish(Err(LpmError::Adb(msg)))
                    &&& msg@ == "MediaTek platform 감지 실패 또는 MTK 기기가 아닙니다: "@ + platform
                } else {
                    &&& acts == seq![ProbeActionView::Log("[ADB] platform: "@ + platform)]
                    &&& step.next matches ProbeNext::Await(
                        ProbeRequest::Query(ProbeQuery::Model),
                        ProbeStage::AwaitModel(q),
                    )
                    &&& q@ == ProbeView { platform, ..p@ }
                }
            },
            _ => false,
        },
        ProbeStage::AwaitModel(p) => match event {
            ProbeEvent::Reply(Err(e)) => acts.len() == 0 && step.next == ProbeNext::Finish(Err(e)),
            ProbeEvent::Reply(Ok(out)) => if trim(out@).len() > 0 {
                &&& acts == seq![ProbeActionView::Log("[ADB] model: "@ + trim(out@))]
                &&& step.next matches ProbeNext::Await(
                    ProbeRequest::Query(ProbeQuery::Region),
                    ProbeStage::AwaitRegion(q),
                )
                &&& q@ == ProbeView { model: trim(out@), ..p@ }
            } else {
                &&& acts.len() == 0
                &&& step.next matches ProbeNext::Await(
                    ProbeRequest::Query(ProbeQuery::HardwareVersion),
                    ProbeStage::AwaitHardwareVersion(q),
                )
                &&& q@ == p@
            },
            _ => false,
        },
        ProbeStage::AwaitHardwareVersion(p) => match event {
            ProbeEvent::Reply(reply) => {
                let model = fallback_model(reply);
                &&& acts == seq![ProbeActionView::Log("[ADB] model: "@ + model)]
                &&& step.next matches ProbeNext::Await(
                    ProbeRequest::Query(ProbeQuery::Region),
                    ProbeStage::AwaitRegion(q),
                )
                &&& q@ == ProbeView { model, ..p@ }
            },
            _ => false,
        },
        ProbeStage::AwaitRegion(p) => match event {
            ProbeEvent::Reply(Err(e)) => acts.len() == 0 && step.next == ProbeNext::Finish(Err(e)),
            ProbeEvent::Reply(Ok(out)) => {
                let region = region_of_prop(out@);
                &&& acts == seq![ProbeActionView::Log("[ADB] region: "@ + region_text(region))]
                &&& step.next matches ProbeNext::Await(
                    ProbeRequest::Query(ProbeQuery::SlotSuffix),
                    ProbeStage::AwaitSlot(q),
                )
                &&& q@ == ProbeView { region, ..p@ }
            },
            _ => false,
        },
        ProbeStage::AwaitSlot(p) => match event {
            ProbeEvent::Reply(reply) => {
                &&& acts.len() == 0
                &&& step.next matches ProbeNext::Finish(Ok(q))
                &&& q@ == ProbeView { current_slot: reply_slot(reply), ..p@ }
            },
            _ => false,
        },
    }
}

/// A probe with nothing known yet.
fn empty_probe() -> (p: AdbDeviceProbe)
    ensures
        p@ == (ProbeView {
            android_version: None,
            android_major: None,
            platform: Seq::<char>::empty(),
            model: Seq::<char>::empty(),
            region: RomRegion::Unknown,
            current_slot: None,
        }),
{
    AdbDeviceProbe {
        android_version: None,
        android_major: None,
        platform: String::new(),
        model: String::new(),
        region: RomRegion::Unknown,
        current_slot: None,
    }
}

/// The step after the Android version was read.
fn version_step(out: String) -> (step: ProbeStep)
    ensures
        probe_step_spec(ProbeStage::AwaitVersion, ProbeEvent::Reply(Ok(out)), step),
{
    let ghost ov = out@;
    let version = empty_to_none(out);
    let major = match &version {
        Some(v) => android_major(Some(v.as_str())),
        None => android_major(None),
    };
    let ghost gv = if trim(ov).len() > 0 { Some(trim(ov)) } else { None };
    assert(opt_view(version) == gv);
    let mut acts: Vec<ProbeAction> = Vec::new();
    match major {
        Some(m) => {
            let mut l = chars_of("[ADB] Android 버전: ");
            let d = dec_exec(m as u64);
            append(&mut l, d.as_slice());
            acts.push(ProbeAction::Log(string_of(l.as_slice())));
        },
        None => {
            acts.push(ProbeAction::Log("[ADB] Android 버전 감지 실패".to_string()));
        },
    }
    let ghost gm = android_major_of(gv);
    assert(probe_actions_view(acts@) =~= version_logs(gm));
    match android_version_gate(major) {
        Err(e) => ProbeStep { actions: acts, next: ProbeNext::Finish(Err(e)) },
        Ok(()) => {
            let mut p = empty_probe();
            p.android_version = version;
            p.android_major = major;
            ProbeStep {
                actions: acts,
                next: ProbeNext::Await(ProbeRequest::Query(ProbeQuery::Platform), ProbeStage::AwaitPlatform(p)),
            }
        },
    }
}

/// The step after the platform was read.
fn platform_step(p: AdbDeviceProbe, out: String) -> (step: ProbeStep)
    ensures
        probe_step_spec(ProbeStage::AwaitPlatform(p), ProbeEvent::Reply(Ok(out)), step),
{
    let ghost pv = p@;
    match check_mtk_platform(out.as_str()) {
        Err(e) => ProbeStep { actions: Vec::new(), next: ProbeNext::Finish(Err(e)) },
        Ok(platform) => {
            let mut l = chars_of("[ADB] platform: ");
            let c = chars_of(platform.as_str());
            append(&mut l, c.as_slice());
            let mut acts: Vec<ProbeAction> = Vec::new();
            acts.push(ProbeAction::Log(string_of(l.as_slice())));
            let mut q = p;
            q.platform = platform;
            let step = ProbeStep {
                actions: acts,
                next: ProbeNext::Await(ProbeRequest::Query(ProbeQuery::Model), ProbeStage::AwaitModel(q)),
            };
            assert(probe_actions_view(step.actions@) =~= seq![ProbeActionView::Log("[ADB] platform: "@ + trim(out@))]);
            step
        },
    }
}

/// The log line of the model, and the model.
fn model_log(model: &Vec<char>) -> (a: ProbeAction)
    ensures
        a@ == ProbeActionView::Log("[ADB] model: "@ + model@),
{
    let mut l = chars_of("[ADB] model: ");
    append(&mut l, model.as_slice());
    ProbeAction::Log(string_of(l.as_slice()))
}

/// The step after the model property was read.
fn model_step(p: AdbDeviceProbe, out: String) -> (step: ProbeStep)
    ensures
        probe_step_spec(ProbeStage::AwaitModel(p), ProbeEvent::Reply(Ok(out)), step),
{
    let c = chars_of(out.as_str());
    let t = trim_vec(c.as_slice());
    if t.len() > 0 {
        let mut acts: Vec<ProbeAction> = Vec::new();
        acts.push(model_log(&t));
        let mut q = p;
        q.model = string_of(t.as_slice());
        let step = ProbeStep {
            actions: acts,
            next: ProbeNext::Await(ProbeRequest::Query(ProbeQuery::Region), ProbeStage::AwaitRegion(q)),
        };
        assert(probe_actions_view(step.actions@) =~= seq![ProbeActionView::Log("[ADB] model: "@ + trim(out@))]);
        step
    } else {
        let step = ProbeStep {
            actions: Vec::new(),
            next: ProbeNext::Await(
                ProbeRequest::Query(ProbeQuery::HardwareVersion),
                ProbeStage::AwaitHardwareVersion(p),
            ),
        };
        assert(probe_actions_view(step.actions@).len() == 0);
        step
    }
}

/// The step after the hardware version was read (or failed to be).
fn hardware_version_step(p: AdbDeviceProbe, reply: Result<String, LpmError>) -> (step: ProbeStep)
    ensures
        probe_step_spec(ProbeStage::AwaitHardwareVersion(p), ProbeEvent::Reply(reply), step),
{
    let ghost gm = fallback_model(reply);
    let model = match &reply {
        Ok(v) => {
            let c = chars_of(v.as_str());
            let t = trim_vec(c.as_slice());
            if t.len() > 0 {
                t
            } else {
                chars_of("UNKNOWN")
            }
        },
        Err(_) => chars_of("UNKNOWN"),
    };
    assert(model@ == gm);
    let mut acts: Vec<ProbeAction> = Vec::new();
    acts.push(model_log(&model));
    let mut q = p;
    q.model = string_of(model.as_slice());
    let step = ProbeStep {
        actions: acts,
        next: ProbeNext::Await(ProbeRequest::Query(ProbeQuery::Region), ProbeStage::AwaitRegion(q)),
    };
    assert(probe_actions_view(step.actions@) =~= seq![ProbeActionView::Log("[ADB] model: "@ + gm)]);
    step
}

/// The step after the region was read.
fn region_step(p: AdbDeviceProbe, out: String) -> (step: ProbeStep)
    ensures
        probe_step_spec(ProbeStage::AwaitRegion(p), ProbeEvent::Reply(Ok(out)), step),
{
    let region = normalize_region(out.as_str());
    let mut l = chars_of("[ADB] region: ");
    append_str(&mut l, region_label(region));
    let mut acts: Vec<ProbeAction> = Vec::new();
    acts.push(ProbeAction::Log(string_of(l.as_slice())));
    let mut q = p;
    q.region = region;
    let step = ProbeStep {
        actions: acts,
        next: ProbeNext::Await(ProbeRequest::Query(ProbeQuery::SlotSuffix), ProbeStage::AwaitSlot(q)),
    };
    assert(probe_actions_view(step.actions@) =~= seq![
        ProbeActionView::Log("[ADB] region: "@ + region_text(region_of_prop(out@))),
    ]);
    step
}

/// `probe_adb_device_for_convert_wipe`, one step at a time: from the stage and
/// the outcome of what it waited for, the actions to perform and what follows.
pub fn probe_adb_device_for_convert_wipe(stage: ProbeStage, event: ProbeEvent) -> (step: ProbeStep)
    requires
        probe_event_fits(stage, event),
    ensures
        probe_step_spec(stage, event, step),
{
    match stage {
        ProbeStage::Start => {
            let mut acts: Vec<ProbeAction> = Vec::new();
            acts.push(ProbeAction::PrepareUsb);
            acts.push(ProbeAction::Log(spinner_log("adb_detect_start", "[ADB] 기기 감지 │")));
            acts.push(ProbeAction::Log(adb_unauthorized_guide().to_string()));
            let step = ProbeStep {
                actions: acts,
                next: ProbeNext::Await(ProbeRequest::WaitAdb, ProbeStage::AwaitAdb),
            };
            assert(probe_actions_view(step.actions@) =~= seq![
                ProbeActionView::PrepareUsb,
                ProbeActionView::Log(spinner_text("adb_detect_start"@, "[ADB] 기기 감지 │"@)),
                ProbeActionView::Log(unauthorized_guide()),
            ]);
            step
        },
        ProbeStage::AwaitAdb => match event {
            ProbeEvent::Ready(Err(e)) => ProbeStep { actions: Vec::new(), next: ProbeNext::Finish(Err(e)) },
            _ => {
                let mut acts: Vec<ProbeAction> = Vec::new();
                acts.push(ProbeAction::Log(spinner_log("adb_detect_start", "[ADB] 기기 감지 완료")));
                let step = ProbeStep {
                    actions: acts,
                    next: ProbeNext::Await(
                        ProbeRequest::Query(ProbeQuery::AndroidVersion),
                        ProbeStage::AwaitVersion,
                    ),
                };
                assert(probe_actions_view(step.actions@) =~= seq![
                    ProbeActionView::Log(spinner_text("adb_detect_start"@, "[ADB] 기기 감지 완료"@)),
                ]);
                step
            },
        },
        ProbeStage::AwaitVersion => match event {
            ProbeEvent::Reply(Ok(out)) => version_step(out),
            ProbeEvent::Reply(Err(e)) => ProbeStep { actions: Vec::new(), next: ProbeNext::Finish(Err(e)) },
            _ => ProbeStep { actions: Vec::new(), next: ProbeNext::Await(ProbeRequest::WaitAdb, ProbeStage::Start) },
        },
        ProbeStage::AwaitPlatform(p) => match event {
            ProbeEvent::Reply(Ok(out)) => platform_step(p, out),
            ProbeEvent::Reply(Err(e)) => ProbeStep { actions: Vec::new(), next: ProbeNext::Finish(Err(e)) },
            _ => ProbeStep { actions: Vec::new(), next: ProbeNext::Await(ProbeRequest::WaitAdb, ProbeStage::Start) },
        },
        ProbeStage::AwaitModel(p) => match event {
            ProbeEvent::Reply(Ok(out)) => model_step(p, out),
            ProbeEvent::Reply(Err(e)) => ProbeStep { actions: Vec::new(), next: ProbeNext::Finish(Err(e)) },
            _ => ProbeStep { actions: Vec::new(), next: ProbeNext::Await(ProbeRequest::WaitAdb, ProbeStage::Start) },
        },
        ProbeStage::AwaitHardwareVersion(p) => match event {
            ProbeEvent::Reply(reply) => hardware_version_step(p, reply),
            _ => ProbeStep { actions: Vec::new(), next: ProbeNext::Await(ProbeRequest::WaitAdb, ProbeStage::Start) },
        },
        ProbeStage::AwaitRegion(p) => match event {
            ProbeEvent::Reply(Ok(out)) => region_step(p, out),
            ProbeEvent::Reply(Err(e)) => ProbeStep { actions: Vec::new(), next: ProbeNext::Finish(Err(e)) },
            _ => ProbeStep { actions: Vec::new(), next: ProbeNext::Await(ProbeRequest::WaitAdb, ProbeStage::Start) },
        },
        ProbeStage::AwaitSlot(p) => match event {
            ProbeEvent::Reply(reply) => {
                let ghost pv = p@;
                let slot = match &reply {
                    Ok(v) => normalize_slot_suffix(v.as_str()),
                    Err(_) => None,
                };
                let mut q = p;
                q.current_slot = slot;
                let step = ProbeStep { actions: Vec::new(), next: ProbeNext::Finish(Ok(q)) };
                assert(probe_actions_view(step.actions@).len() == 0);
                step
            },
            _ => ProbeStep { actions: Vec::new(), next: ProbeNext::Await(ProbeRequest::WaitAdb, ProbeStage::Start) },
        },
    }
}

/// Whether the probe may take this stage and event.
pub fn probe_step_allowed(stage: &ProbeStage, event: &ProbeEvent) -> (b: bool)
    ensures
        b == probe_event_fits(*stage, *event),
{
    match stage {
        ProbeStage::Start => matches!(event, ProbeEvent::Begin),
        ProbeStage::AwaitAdb => matches!(event, ProbeEvent::Ready(_)),
        _ => matches!(event, ProbeEvent::Reply(_)),
    }
}

/// Whether a known Android version allows the installation: 15 or later, or
/// unknown.
pub open spec fn version_allowed(v: ProbeView) -> bool {
    !(v.android_major matches Some(m) && m <= 14)
}

/// What a finished probe guarantees: the Android version is allowed and the
/// platform is a MediaTek one.
pub open spec fn probe_accepts(v: ProbeView) -> bool {
    &&& version_allowed(v)
    &&& v.platform.len() > 0
    &&& starts_with(unicode_upper(v.platform), "MT"@)
}

/// What each stage knows of the partial probe it holds.
pub open spec fn probe_stage_valid(stage: ProbeStage) -> bool {
    match stage {
        ProbeStage::AwaitPlatform(p) => version_allowed(p@),
        ProbeStage::AwaitModel(p) => probe_accepts(p@),
        ProbeStage::AwaitHardwareVersion(p) => probe_accepts(p@),
        ProbeStage::AwaitRegion(p) => probe_accepts(p@),
        ProbeStage::AwaitSlot(p) => probe_accepts(p@),
        _ => true,
    }
}

/// A probe that succeeds has found Android 15 or later (or an unknown
/// version) on a MediaTek platform: the checks hold at every step and are
/// kept to the end.
pub proof fn lemma_probe_success_is_checked(stage: ProbeStage, event: ProbeEvent, step: ProbeStep)
    requires
        probe_stage_valid(stage),
        probe_step_spec(stage, event, step),
    ensures
        step.next matches ProbeNext::Await(_, s) ==> probe_stage_valid(s),
        step.next matches ProbeNext::Finish(Ok(q)) ==> probe_accepts(q@),
{
}

} // verus!
