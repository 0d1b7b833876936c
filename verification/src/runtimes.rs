//! Installing what SP Flash Tool needs on Windows: the Microsoft Visual C++
//! runtimes (x86 and x64) and the MediaTek USB driver. Elsewhere these steps
//! end at once with an error.
//!
//! The decisions are state machines: the program performs each request and
//! hands its outcome back as the next event.
use vstd::prelude::*;
use crate::device::{handle_elevated_exit, vc_redist_exit_result, vc_runtime_final_check, VcRuntimeStatus};
use crate::model::LpmError;
use crate::text::{append_str, chars_of, int_text, string_of};

verus! {

/// What the program does on the way.
pub enum RtAction {
    Log(String),
    Pause { millis: u64 },
}

/// An `RtAction` over plain values.
pub enum RtActionView {
    Log(Seq<char>),
    Pause(u64),
}

impl View for RtAction {
    type V = RtActionView;

    open spec fn view(&self) -> RtActionView {
        match self {
            RtAction::Log(s) => RtActionView::Log(s@),
            RtAction::Pause { millis } => RtActionView::Pause(*millis),
        }
    }
}

/// The views of a list of actions.
pub open spec fn rt_actions_view(a: Seq<RtAction>) -> Seq<RtActionView> {
    a.map_values(|x: RtAction| x@)
}

/// A log action.
fn log(line: &str) -> (a: RtAction)
    ensures
        a@ == RtActionView::Log(line@),
{
    RtAction::Log(line.to_string())
}

/// A log action made of two parts.
fn log2(head: &str, tail: &str) -> (a: RtAction)
    ensures
        a@ == RtActionView::Log(head@ + tail@),
{
    let mut c = chars_of(head);
    append_str(&mut c, tail);
    RtAction::Log(string_of(c.as_slice()))
}

/// One of the two runtimes.
#[derive(Debug, Clone, Copy, PartialEq, Eq, Structural)]
pub enum VcArch {
    X86,
    X64,
}

/// How a runtime is named.
pub open spec fn arch_text(a: VcArch) -> Seq<char> {
    match a {
        VcArch::X86 => "x86"@,
        VcArch::X64 => "x64"@,
    }
}

/// What the runtime installation knows of its surroundings.
pub struct VcContext {
    /// Whether the program runs on Windows.
    pub on_windows: bool,
    /// The x86 installer's path, as shown.
    pub x86_installer: String,
    /// The x64 installer's path, as shown.
    pub x64_installer: String,
}

/// The installer's path of a runtime, as shown.
pub open spec fn installer_text(ctx: VcContext, a: VcArch) -> Seq<char> {
    match a {
        VcArch::X86 => ctx.x86_installer@,
        VcArch::X64 => ctx.x64_installer@,
    }
}

/// Where the runtime installation stands.
#[derive(Debug, Clone, Copy, PartialEq, Eq, Structural)]
pub enum VcStage {
    Start,
    /// Waiting for the first check.
    AwaitInitial,
    /// Waiting for the download directory to be made.
    AwaitDownloadDir { initial: VcRuntimeStatus },
    /// Waiting for an installer's download.
    AwaitDownload { arch: VcArch, restart: bool },
    /// Waiting for an installer's exit code.
    AwaitInstall { arch: VcArch, restart: bool },
    /// Waiting for the check after the x86 runtime.
    AwaitAfterX86 { restart: bool },
    /// Waiting for the last check.
    AwaitFinal { restart: bool },
}

/// What the program is asked to do and report back.
#[derive(Debug, Clone, Copy, PartialEq, Eq, Structural)]
pub enum VcRequest {
    /// Check which runtimes are installed.
    CheckStatus,
    /// Make the download directory.
    CreateDownloadDir,
    /// Download an installer (checking its size and header).
    Download(VcArch),
    /// Run an installer elevated and report its exit code.
    RunInstaller(VcArch),
}

/// The outcome of a request.
pub enum VcEvent {
    Begin,
    Status(Result<VcRuntimeStatus, LpmError>),
    Done(Result<(), LpmError>),
    Exit(Result<i32, LpmError>),
}

/// What follows a step.
pub enum VcNext {
    Await(VcRequest, VcStage),
    Finish(Result<(), LpmError>),
}

/// One step of the runtime installation.
pub struct VcStep {
    pub actions: Vec<RtAction>,
    pub next: VcNext,
}

/// Whether an event is the outcome of what a stage waits for.
pub open spec fn vc_event_fits(stage: VcStage, event: VcEvent) -> bool {
    match stage {
        VcStage::Start => event is Begin,
        VcStage::AwaitInitial | VcStage::AwaitAfterX86 { .. } | VcStage::AwaitFinal { .. } => event is Status,
        VcStage::AwaitDownloadDir { .. } | VcStage::AwaitDownload { .. } => event is Done,
        VcStage::AwaitInstall { .. } => event is Exit,
    }
}

/// What an installer's exit code means: whether a restart may be needed, or
/// the error's text.
pub open spec fn vc_exit_outcome(code: i32) -> Result<bool, Seq<char>> {
    if code == 0 || code == 1638 {
        Ok(false)
    } else if code == 1641 || code == 3010 {
        Ok(true)
    } else if code == 1223 {
        Err("Microsoft Visual C++ 런타임 설치가 관리자 권한 확인 창에서 취소되었습니다."@)
    } else {
        Err("Microsoft Visual C++ 런타임 설치 명령이 실패했습니다. exit_code="@ + int_text(code as int))
    }
}

/// The error's text when the last check misses a runtime.
pub open spec fn vc_missing_text(st: VcRuntimeStatus) -> Seq<char> {
    "Microsoft Visual C++ 런타임 설치 완료를 확인하지 못했습니다: "@ + (if !st.x86_installed
        && !st.x64_installed {
        "x86, x64"@
    } else if !st.x86_installed {
        "x86"@
    } else {
        "x64"@
    }) + ". 설치 창을 완료한 뒤 다시 시도해주세요."@
}

/// The log line of a download.
pub open spec fn download_log(a: VcArch) -> Seq<char> {
    "[Runtime] Microsoft Visual C++ "@ + arch_text(a) + " 설치 파일을 다운로드 합니다."@
}

/// The text shown off Windows.
pub open spec fn vc_not_windows() -> Seq<char> {
    "Microsoft Visual C++ 런타임 설치는 Windows에서만 지원됩니다."@
}

/// What one step of the runtime installation does.
pub open spec fn vc_step_spec(ctx: VcContext, stage: VcStage, event: VcEvent, step: VcStep) -> bool {
    let acts = rt_actions_view(step.actions@);
    match stage {
        VcStage::Start => if !ctx.on_windows {
            &&& acts == seq![RtActionView::Log("[Runtime] "@ + vc_not_windows())]
            &&& step.next matches VcNext::Finish(Err(LpmError::InvalidFirmwareFolder(m)))
            &&& m@ == vc_not_windows()
        } else {
            acts.len() == 0 && step.next == VcNext::Await(VcRequest::CheckStatus, VcStage::AwaitInitial)
        },
        VcStage::AwaitInitial => match event {
            VcEvent::Status(Err(e)) => acts.len() == 0 && step.next == VcNext::Finish(Err(e)),
            VcEvent::Status(Ok(st)) => if st.x86_installed && st.x64_installed {
                &&& acts == seq![
                    RtActionView::Log("[Runtime] Microsoft Visual C++ x86/x64 런타임이 이미 설치되어 있습니다."@),
                ]
                &&& step.next == VcNext::Finish(Ok(()))
            } else {
                acts.len() == 0 && step.next == VcNext::Await(
                    VcRequest::CreateDownloadDir,
                    VcStage::AwaitDownloadDir { initial: st },
                )
            },
            _ => false,
        },
        VcStage::AwaitDownloadDir { initial } => match event {
            VcEvent::Done(Err(e)) => acts.len() == 0 && step.next == VcNext::Finish(Err(e)),
            VcEvent::Done(Ok(())) => if !initial.x86_installed {
                &&& acts == seq![RtActionView::Log(download_log(VcArch::X86))]
                &&& step.next == VcNext::Await(
                    VcRequest::Download(VcArch::X86),
                    VcStage::AwaitDownload { arch: VcArch::X86, restart: false },
                )
            } else {
                acts.len() == 0 && step.next == VcNext::Await(
                    VcRequest::CheckStatus,
                    VcStage::AwaitAfterX86 { restart: false },
                )
            },
            _ => false,
        },
        VcStage::AwaitDownload { arch, restart } => match event {
            VcEvent::Done(Err(e)) => acts.len() == 0 && step.next == VcNext::Finish(Err(e)),
            VcEvent::Done(Ok(())) => {
                &&& acts == seq![
                    RtActionView::Log(
                        "[Runtime] Microsoft Visual C++ "@ + arch_text(arch) + " 설치 파일을 실행합니다: "@
                            + installer_text(ctx, arch),
                    ),
                ]
                &&& step.next == VcNext::Await(
                    VcRequest::RunInstaller(arch),
                    VcStage::AwaitInstall { arch, restart },
                )
            },
            _ => false,
        },
        VcStage::AwaitInstall { arch, restart } => match event {
            VcEvent::Exit(Err(e)) => acts.len() == 0 && step.next == VcNext::Finish(Err(e)),
            VcEvent::Exit(Ok(code)) => match vc_exit_outcome(code) {
                Err(text) => {
                    &&& acts.len() == 0
                    &&& step.next matches VcNext::Finish(Err(LpmError::InvalidFirmwareFolder(m)))
                    &&& m@ == text
                },
                Ok(r) => if arch == VcArch::X86 {
                    acts.len() == 0 && step.next == VcNext::Await(
                        VcRequest::CheckStatus,
                        VcStage::AwaitAfterX86 { restart: restart || r },
                    )
                } else {
                    acts == seq![RtActionView::Pause(500)] && step.next == VcNext::Await(
                        VcRequest::CheckStatus,
                        VcStage::AwaitFinal { restart: restart || r },
                    )
                },
            },
            _ => false,
        },
        VcStage::AwaitAfterX86 { restart } => match event {
            VcEvent::Status(Err(e)) => acts.len() == 0 && step.next == VcNext::Finish(Err(e)),
            VcEvent::Status(Ok(st)) => if !st.x64_installed {
                &&& acts == seq![RtActionView::Log(download_log(VcArch::X64))]
                &&& step.next == VcNext::Await(
                    VcRequest::Download(VcArch::X64),
                    VcStage::AwaitDownload { arch: VcArch::X64, restart },
                )
            } else {
                acts == seq![RtActionView::Pause(500)] && step.next == VcNext::Await(
                    VcRequest::CheckStatus,
                    VcStage::AwaitFinal { restart },
                )
            },
            _ => false,
        },
        VcStage::AwaitFinal { restart } => match event {
            VcEvent::Status(Err(e)) => acts.len() == 0 && step.next == VcNext::Finish(Err(e)),
            VcEvent::Status(Ok(st)) => if !(st.x86_installed && st.x64_installed) {
                &&& acts.len() == 0
                &&& step.next matches VcNext::Finish(Err(LpmError::InvalidFirmwareFolder(m)))
                &&& m@ == vc_missing_text(st)
            } else {
                let done = seq![RtActionView::Log("[Runtime] Microsoft Visual C++ x86/x64 런타임 설치 감지 완료"@)];
                &&& acts == (if restart {
                    done + seq![
                        RtActionView::Log(
                            "[Runtime] Microsoft Visual C++ 런타임 설치가 완료되었습니다. Windows 재시작이 필요할 수 있습니다."@,
                        ),
                    ]
                } else {
                    done
                })
                &&& step.next == VcNext::Finish(Ok(()))
            },
            _ => false,
        },
    }
}

/// The log line of a download.
fn download_action(a: VcArch) -> (r: RtAction)
    ensures
        r@ == RtActionView::Log(download_log(a)),
{
    let mut c = chars_of("[Runtime] Microsoft Visual C++ ");
    match a {
        VcArch::X86 => append_str(&mut c, "x86"),
        VcArch::X64 => append_str(&mut c, "x64"),
    }
    append_str(&mut c, " 설치 파일을 다운로드 합니다.");
    RtAction::Log(string_of(c.as_slice()))
}

/// The step after an installer's exit code.
fn vc_install_step(arch: VcArch, restart: bool, code: i32) -> (step: VcStep)
    ensures
        match vc_exit_outcome(code) {
            Err(text) => {
                &&& step.actions@.len() == 0
                &&& step.next matches VcNext::Finish(Err(LpmError::InvalidFirmwareFolder(m)))
                &&& m@ == text
            },
            Ok(r) => if arch == VcArch::X86 {
                step.actions@.len() == 0 && step.next == VcNext::Await(
                    VcRequest::CheckStatus,
                    VcStage::AwaitAfterX86 { restart: restart || r },
                )
            } else {
                rt_actions_view(step.actions@) == seq![RtActionView::Pause(500)] && step.next
                    == VcNext::Await(VcRequest::CheckStatus, VcStage::AwaitFinal { restart: restart || r })
            },
        },
{
    match vc_redist_exit_result(code) {
        Err(e) => VcStep { actions: Vec::new(), next: VcNext::Finish(Err(e)) },
        Ok(r) => {
            let mut acts: Vec<RtAction> = Vec::new();
            match arch {
                VcArch::X86 => VcStep {
                    actions: acts,
                    next: VcNext::Await(VcRequest::CheckStatus, VcStage::AwaitAfterX86 { restart: restart || r }),
                },
                VcArch::X64 => {
                    acts.push(RtAction::Pause { millis: 500 });
                    let step = VcStep {
                        actions: acts,
                        next: VcNext::Await(VcRequest::CheckStatus, VcStage::AwaitFinal { restart: restart || r }),
                    };
                    assert(rt_actions_view(step.actions@) =~= seq![RtActionView::Pause(500)]);
                    step
                },
            }
        },
    }
}

/// `install_vc_runtimes`, one step at a time: from the stage and the outcome
/// of what it waited for, the actions to perform and what follows. Each
/// runtime that is missing is downloaded and installed, x86 first, and the
/// installation succeeds only if a last check finds both.
pub fn install_vc_runtimes(ctx: &VcContext, stage: VcStage, event: VcEvent) -> (step: VcStep)
    requires
        vc_event_fits(stage, event),
    ensures
        vc_step_spec(*ctx, stage, event, step),
{
    let mut acts: Vec<RtAction> = Vec::new();
    match stage {
        VcStage::Start => {
            if !ctx.on_windows {
                acts.push(log2("[Runtime] ", "Microsoft Visual C++ 런타임 설치는 Windows에서만 지원됩니다."));
                let step = VcStep {
                    actions: acts,
                    next: VcNext::Finish(
                        Err(
                            LpmError::InvalidFirmwareFolder(
                                "Microsoft Visual C++ 런타임 설치는 Windows에서만 지원됩니다.".to_string(),
                            ),
                        ),
                    ),
                };
                assert(rt_actions_view(step.actions@) =~= seq![RtActionView::Log("[Runtime] "@ + vc_not_windows())]);
                step
            } else {
                VcStep { actions: acts, next: VcNext::Await(VcRequest::CheckStatus, VcStage::AwaitInitial) }
            }
        },
        VcStage::AwaitInitial => match event {
            VcEvent::Status(Ok(st)) => {
                if st.all_installed() {
                    acts.push(log("[Runtime] Microsoft Visual C++ x86/x64 런타임이 이미 설치되어 있습니다."));
                    let step = VcStep { actions: acts, next: VcNext::Finish(Ok(())) };
                    assert(rt_actions_view(step.actions@) =~= seq![
                        RtActionView::Log("[Runtime] Microsoft Visual C++ x86/x64 런타임이 이미 설치되어 있습니다."@),
                    ]);
                    step
                } else {
                    VcStep {
                        actions: acts,
                        next: VcNext::Await(VcRequest::CreateDownloadDir, VcStage::AwaitDownloadDir { initial: st }),
                    }
                }
            },
            VcEvent::Status(Err(e)) => VcStep { actions: acts, next: VcNext::Finish(Err(e)) },
            _ => VcStep { actions: acts, next: VcNext::Finish(Ok(())) },
        },
        VcStage::AwaitDownloadDir { initial } => match event {
            VcEvent::Done(Ok(())) => {
                if !initial.x86_installed {
                    acts.push(download_action(VcArch::X86));
                    let step = VcStep {
                        actions: acts,
                        next: VcNext::Await(
                            VcRequest::Download(VcArch::X86),
                            VcStage::AwaitDownload { arch: VcArch::X86, restart: false },
                        ),
                    };
                    assert(rt_actions_view(step.actions@) =~= seq![RtActionView::Log(download_log(VcArch::X86))]);
                    step
                } else {
                    VcStep {
                        actions: acts,
                        next: VcNext::Await(VcRequest::CheckStatus, VcStage::AwaitAfterX86 { restart: false }),
                    }
                }
            },
            VcEvent::Done(Err(e)) => VcStep { actions: acts, next: VcNext::Finish(Err(e)) },
            _ => VcStep { actions: acts, next: VcNext::Finish(Ok(())) },
        },
        VcStage::AwaitDownload { arch, restart } => match event {
            VcEvent::Done(Ok(())) => {
                let mut c = chars_of("[Runtime] Microsoft Visual C++ ");
                match arch {
                    VcArch::X86 => append_str(&mut c, "x86"),
                    VcArch::X64 => append_str(&mut c, "x64"),
                }
                append_str(&mut c, " 설치 파일을 실행합니다: ");
                match arch {
                    VcArch::X86 => append_str(&mut c, ctx.x86_installer.as_str()),
                    VcArch::X64 => append_str(&mut c, ctx.x64_installer.as_str()),
                }
                acts.push(RtAction::Log(string_of(c.as_slice())));
                let step = VcStep {
                    actions: acts,
                    next: VcNext::Await(VcRequest::RunInstaller(arch), VcStage::AwaitInstall { arch, restart }),
                };
                assert(rt_actions_view(step.actions@) =~= seq![
                    RtActionView::Log(
                        "[Runtime] Microsoft Visual C++ "@ + arch_text(arch) + " 설치 파일을 실행합니다: "@
                            + installer_text(*ctx, arch),
                    ),
                ]);
                step
            },
            VcEvent::Done(Err(e)) => VcStep { actions: acts, next: VcNext::Finish(Err(e)) },
            _ => VcStep { actions: acts, next: VcNext::Finish(Ok(())) },
        },
        VcStage::AwaitInstall { arch, restart } => match event {
            VcEvent::Exit(Ok(code)) => vc_install_step(arch, restart, code),
            VcEvent::Exit(Err(e)) => VcStep { actions: acts, next: VcNext::Finish(Err(e)) },
            _ => VcStep { actions: acts, next: VcNext::Finish(Ok(())) },
        },
        VcStage::AwaitAfterX86 { restart } => match event {
            VcEvent::Status(Ok(st)) => {
                if !st.x64_installed {
                    acts.push(download_action(VcArch::X64));
                    let step = VcStep {
                        actions: acts,
                        next: VcNext::Await(
                            VcRequest::Download(VcArch::X64),
                            VcStage::AwaitDownload { arch: VcArch::X64, restart },
                        ),
                    };
                    assert(rt_actions_view(step.actions@) =~= seq![RtActionView::Log(download_log(VcArch::X64))]);
                    step
                } else {
                    acts.push(RtAction::Pause { millis: 500 });
                    let step = VcStep {
                        actions: acts,
                        next: VcNext::Await(VcRequest::CheckStatus, VcStage::AwaitFinal { restart }),
                    };
                    assert(rt_actions_view(step.actions@) =~= seq![RtActionView::Pause(500)]);
                    step
                }
            },
            VcEvent::Status(Err(e)) => VcStep { actions: acts, next: VcNext::Finish(Err(e)) },
            _ => VcStep { actions: acts, next: VcNext::Finish(Ok(())) },
        },
        VcStage::AwaitFinal { restart } => match event {
            VcEvent::Status(Ok(st)) => match vc_runtime_final_check(st) {
                Err(e) => VcStep { actions: acts, next: VcNext::Finish(Err(e)) },
                Ok(()) => {
                    acts.push(log("[Runtime] Microsoft Visual C++ x86/x64 런타임 설치 감지 완료"));
                    let ghost done = seq![
                        RtActionView::Log("[Runtime] Microsoft Visual C++ x86/x64 런타임 설치 감지 완료"@),
                    ];
                    assert(rt_actions_view(acts@) =~= done);
                    if restart {
                        acts.push(
                            log(
                                "[Runtime] Microsoft Visual C++ 런타임 설치가 완료되었습니다. Windows 재시작이 필요할 수 있습니다.",
                            ),
                        );
                        assert(rt_actions_view(acts@) =~= done + seq![
                            RtActionView::Log(
                                "[Runtime] Microsoft Visual C++ 런타임 설치가 완료되었습니다. Windows 재시작이 필요할 수 있습니다."@,
                            ),
                        ]);
                    }
                    VcStep { actions: acts, next: VcNext::Finish(Ok(())) }
                },
            },
            VcEvent::Status(Err(e)) => VcStep { actions: acts, next: VcNext::Finish(Err(e)) },
            _ => VcStep { actions: acts, next: VcNext::Finish(Ok(())) },
        },
    }
}

/// Whether the runtime installation may take this stage and event.
pub fn vc_step_allowed(stage: &VcStage, event: &VcEvent) -> (b: bool)
    ensures
        b == vc_event_fits(*stage, *event),
{
    match stage {
        VcStage::Start => matches!(event, VcEvent::Begin),
        VcStage::AwaitInitial | VcStage::AwaitAfterX86 { .. } | VcStage::AwaitFinal { .. } => matches!(
            event,
            VcEvent::Status(_)
        ),
        VcStage::AwaitDownloadDir { .. } | VcStage::AwaitDownload { .. } => matches!(event, VcEvent::Done(_)),
        VcStage::AwaitInstall { .. } => matches!(event, VcEvent::Exit(_)),
    }
}

/// The runtime installation reports success only when a check found both
/// runtimes installed (at first, or at the end).
pub proof fn lemma_vc_success_needs_both(ctx: VcContext, stage: VcStage, event: VcEvent, step: VcStep)
    requires
        vc_step_spec(ctx, stage, event, step),
        step.next matches VcNext::Finish(Ok(())),
    ensures
        event matches VcEvent::Status(Ok(st)) && st.x86_installed && st.x64_installed,
{
}

/// What the driver steps know of their surroundings.
pub struct MtkContext {
    /// Whether the program runs on Windows.
    pub on_windows: bool,
    /// The driver directory, as shown.
    pub driver_dir: String,
    /// The expected installer's path, as shown.
    pub installer: String,
}

/// Where the preparation of the driver package stands.
#[derive(Debug, Clone, Copy, PartialEq, Eq, Structural)]
pub enum MtkPrepareStage {
    Start,
    AwaitPrepared,
    AwaitReset,
    AwaitDownload,
    AwaitExtract,
    AwaitInstallerFound,
    AwaitMarker,
}

/// What the preparation asks the program to do and report back.
#[derive(Debug, Clone, Copy, PartialEq, Eq, Structural)]
pub enum MtkPrepareRequest {
    /// Whether the revision marker is a file and an installer is found in the
    /// driver directory.
    CheckPrepared,
    /// Make the download directory, empty the driver directory and remove an
    /// earlier archive.
    ResetDirectories,
    /// Download the driver archive.
    Download,
    /// Unpack the archive into the driver directory.
    Extract,
    /// Whether the expected installer is a file or another is found.
    FindInstaller,
    /// Write the revision marker.
    WriteMarker,
}

/// The outcome of a request of the driver steps.
pub enum MtkEvent {
    Begin,
    Found(bool),
    Done(Result<(), LpmError>),
}

/// What follows a step of the preparation.
pub enum MtkPrepareNext {
    Await(MtkPrepareRequest, MtkPrepareStage),
    Finish(Result<(), LpmError>),
}

/// One step of the preparation.
pub struct MtkPrepareStep {
    pub actions: Vec<RtAction>,
    pub next: MtkPrepareNext,
}

/// Whether an event is the outcome of what a preparation stage waits for.
pub open spec fn mtk_prepare_event_fits(stage: MtkPrepareStage, event: MtkEvent) -> bool {
    match stage {
        MtkPrepareStage::Start => event is Begin,
        MtkPrepareStage::AwaitPrepared | MtkPrepareStage::AwaitInstallerFound => event is Found,
        _ => event is Done,
    }
}

/// The log line of a prepared package.
pub open spec fn mtk_ready_log(ctx: MtkContext) -> Seq<char> {
    "[Driver] MTK 드라이버 설치 파일 준비 완료: "@ + ctx.driver_dir@
}

/// What one step of the preparation does.
pub open spec fn mtk_prepare_step_spec(
    ctx: MtkContext,
    stage: MtkPrepareStage,
    event: MtkEvent,
    step: MtkPrepareStep,
) -> bool {
    let acts = rt_actions_view(step.actions@);
    let failed = |e: LpmError| acts.len() == 0 && step.next == MtkPrepareNext::Finish(Err(e));
    match stage {
        MtkPrepareStage::Start => if !ctx.on_windows {
            &&& acts == seq![RtActionView::Log("[Driver] MTK 드라이버 파일 준비는 Windows에서만 지원됩니다."@)]
            &&& step.next matches MtkPrepareNext::Finish(Err(LpmError::InvalidFirmwareFolder(m)))
            &&& m@ == "MTK 드라이버 파일 준비는 Windows에서만 지원됩니다."@
        } else {
            acts.len() == 0 && step.next == MtkPrepareNext::Await(
                MtkPrepareRequest::CheckPrepared,
                MtkPrepareStage::AwaitPrepared,
            )
        },
        MtkPrepareStage::AwaitPrepared => match event {
            MtkEvent::Found(true) => acts == seq![RtActionView::Log(mtk_ready_log(ctx))] && step.next
                == MtkPrepareNext::Finish(Ok(())),
            MtkEvent::Found(false) => acts.len() == 0 && step.next == MtkPrepareNext::Await(
                MtkPrepareRequest::ResetDirectories,
                MtkPrepareStage::AwaitReset,
            ),
            _ => false,
        },
        MtkPrepareStage::AwaitReset => match event {
            MtkEvent::Done(Err(e)) => failed(e),
            MtkEvent::Done(Ok(())) => acts == seq![RtActionView::Log("[Driver] MTK 드라이버 파일을 다운로드 합니다."@)]
                && step.next == MtkPrepareNext::Await(MtkPrepareRequest::Download, MtkPrepareStage::AwaitDownload),
            _ => false,
        },
        MtkPrepareStage::AwaitDownload => match event {
            MtkEvent::Done(Err(e)) => failed(e),
            MtkEvent::Done(Ok(())) => acts == seq![
                RtActionView::Log("[Driver] MTK 드라이버 압축을 "@ + ctx.driver_dir@ + " 경로에 해제합니다."@),
            ] && step.next == MtkPrepareNext::Await(MtkPrepareRequest::Extract, MtkPrepareStage::AwaitExtract),
            _ => false,
        },
        MtkPrepareStage::AwaitExtract => match event {
            MtkEvent::Done(Err(e)) => failed(e),
            MtkEvent::Done(Ok(())) => acts.len() == 0 && step.next == MtkPrepareNext::Await(
                MtkPrepareRequest::FindInstaller,
                MtkPrepareStage::AwaitInstallerFound,
            ),
            _ => false,
        },
        MtkPrepareStage::AwaitInstallerFound => match event {
            MtkEvent::Found(false) => {
                &&& acts.len() == 0
                &&& step.next matches MtkPrepareNext::Finish(Err(LpmError::FileNotFound(m)))
                &&& m@ == "MTK 드라이버 설치 파일을 찾지 못했습니다: "@ + ctx.installer@
            },
            MtkEvent::Found(true) => acts.len() == 0 && step.next == MtkPrepareNext::Await(
                MtkPrepareRequest::WriteMarker,
                MtkPrepareStage::AwaitMarker,
            ),
            _ => false,
        },
        MtkPrepareStage::AwaitMarker => match event {
            MtkEvent::Done(Err(e)) => failed(e),
            MtkEvent::Done(Ok(())) => acts == seq![RtActionView::Log(mtk_ready_log(ctx))] && step.next
                == MtkPrepareNext::Finish(Ok(())),
            _ => false,
        },
    }
}

/// The log line of a prepared package.
fn mtk_ready_action(ctx: &MtkContext) -> (a: RtAction)
    ensures
        a@ == RtActionView::Log(mtk_ready_log(*ctx)),
{
    log2("[Driver] MTK 드라이버 설치 파일 준비 완료: ", ctx.driver_dir.as_str())
}

/// `prepare_mtk_driver_package`, one step at a time. A package already
/// prepared (revision marker and installer present) is kept; otherwise the
/// driver is downloaded afresh, unpacked, checked for an installer and marked.
pub fn prepare_mtk_driver_package(ctx: &MtkContext, stage: MtkPrepareStage, event: MtkEvent) -> (step:
    MtkPrepareStep)
    requires
        mtk_prepare_event_fits(stage, event),
    ensures
        mtk_prepare_step_spec(*ctx, stage, event, step),
{
    let mut acts: Vec<RtAction> = Vec::new();
    match stage {
        MtkPrepareStage::Start => {
            if !ctx.on_windows {
                acts.push(log("[Driver] MTK 드라이버 파일 준비는 Windows에서만 지원됩니다."));
                let step = MtkPrepareStep {
                    actions: acts,
                    next: MtkPrepareNext::Finish(
                        Err(
                            LpmError::InvalidFirmwareFolder(
                                "MTK 드라이버 파일 준비는 Windows에서만 지원됩니다.".to_string(),
                            ),
                        ),
                    ),
                };
                assert(rt_actions_view(step.actions@) =~= seq![
                    RtActionView::Log("[Driver] MTK 드라이버 파일 준비는 Windows에서만 지원됩니다."@),
                ]);
                step
            } else {
                MtkPrepareStep {
                    actions: acts,
                    next: MtkPrepareNext::Await(MtkPrepareRequest::CheckPrepared, MtkPrepareStage::AwaitPrepared),
                }
            }
        },
        MtkPrepareStage::AwaitPrepared | MtkPrepareStage::AwaitMarker => {
            let ready = match event {
                MtkEvent::Found(found) => found,
                MtkEvent::Done(Ok(())) => true,
                _ => false,
            };
            match event {
                MtkEvent::Done(Err(e)) => MtkPrepareStep { actions: acts, next: MtkPrepareNext::Finish(Err(e)) },
                _ => if ready {
                    acts.push(mtk_ready_action(ctx));
                    let step = MtkPrepareStep { actions: acts, next: MtkPrepareNext::Finish(Ok(())) };
                    assert(rt_actions_view(step.actions@) =~= seq![RtActionView::Log(mtk_ready_log(*ctx))]);
                    step
                } else {
                    MtkPrepareStep {
                        actions: acts,
                        next: MtkPrepareNext::Await(MtkPrepareRequest::ResetDirectories, MtkPrepareStage::AwaitReset),
                    }
                },
            }
        },
        MtkPrepareStage::AwaitReset => match event {
            MtkEvent::Done(Ok(())) => {
                acts.push(log("[Driver] MTK 드라이버 파일을 다운로드 합니다."));
                let step = MtkPrepareStep {
                    actions: acts,
                    next: MtkPrepareNext::Await(MtkPrepareRequest::Download, MtkPrepareStage::AwaitDownload),
                };
                assert(rt_actions_view(step.actions@) =~= seq![
                    RtActionView::Log("[Driver] MTK 드라이버 파일을 다운로드 합니다."@),
                ]);
                step
            },
            MtkEvent::Done(Err(e)) => MtkPrepareStep { actions: acts, next: MtkPrepareNext::Finish(Err(e)) },
            _ => MtkPrepareStep { actions: acts, next: MtkPrepareNext::Finish(Ok(())) },
        },
        MtkPrepareStage::AwaitDownload => match event {
            MtkEvent::Done(Ok(())) => {
                let mut c = chars_of("[Driver] MTK 드라이버 압축을 ");
                append_str(&mut c, ctx.driver_dir.as_str());
                append_str(&mut c, " 경로에 해제합니다.");
                acts.push(RtAction::Log(string_of(c.as_slice())));
                let step = MtkPrepareStep {
                    actions: acts,
                    next: MtkPrepareNext::Await(MtkPrepareRequest::Extract, MtkPrepareStage::AwaitExtract),
                };
                assert(rt_actions_view(step.actions@) =~= seq![
                    RtActionView::Log("[Driver] MTK 드라이버 압축을 "@ + ctx.driver_dir@ + " 경로에 해제합니다."@),
                ]);
                step
            },
            MtkEvent::Done(Err(e)) => MtkPrepareStep { actions: acts, next: MtkPrepareNext::Finish(Err(e)) },
            _ => MtkPrepareStep { actions: acts, next: MtkPrepareNext::Finish(Ok(())) },
        },
        MtkPrepareStage::AwaitExtract => match event {
            MtkEvent::Done(Ok(())) => MtkPrepareStep {
                actions: acts,
                next: MtkPrepareNext::Await(MtkPrepareRequest::FindInstaller, MtkPrepareStage::AwaitInstallerFound),
            },
            MtkEvent::Done(Err(e)) => MtkPrepareStep { actions: acts, next: MtkPrepareNext::Finish(Err(e)) },
            _ => MtkPrepareStep { actions: acts, next: MtkPrepareNext::Finish(Ok(())) },
        },
        MtkPrepareStage::AwaitInstallerFound => match event {
            MtkEvent::Found(true) => MtkPrepareStep {
                actions: acts,
                next: MtkPrepareNext::Await(MtkPrepareRequest::WriteMarker, MtkPrepareStage::AwaitMarker),
            },
            _ => {
                let mut c = chars_of("MTK 드라이버 설치 파일을 찾지 못했습니다: ");
                append_str(&mut c, ctx.installer.as_str());
                MtkPrepareStep {
                    actions: acts,
                    next: MtkPrepareNext::Finish(Err(LpmError::FileNotFound(string_of(c.as_slice())))),
                }
            },
        },
    }
}

/// Where the driver installation stands.
#[derive(Debug, Clone, Copy, PartialEq, Eq, Structural)]
pub enum MtkInstallStage {
    Start,
    AwaitPrepare,
    AwaitInstaller,
    AwaitRun,
    AwaitCheck,
}

/// What the installation asks the program to do and report back.
pub enum MtkInstallRequest {
    /// Prepare the driver package (by `prepare_mtk_driver_package`).
    Prepare,
    /// The installer to run: the expected one if it is a file, else the one
    /// found in the driver directory.
    LocateInstaller,
    /// Run the installer elevated and report its exit code.
    RunElevated(String),
    /// Check whether the driver is installed.
    CheckInstalled,
}

/// The outcome of a request of the installation.
pub enum MtkInstallEvent {
    Begin,
    Done(Result<(), LpmError>),
    Located(Option<String>),
    Exit(Result<i32, LpmError>),
    Installed(Result<bool, LpmError>),
}

/// What follows a step of the installation.
pub enum MtkInstallNext {
    Await(MtkInstallRequest, MtkInstallStage),
    Finish(Result<(), LpmError>),
}

/// One step of the installation.
pub struct MtkInstallStep {
    pub actions: Vec<RtAction>,
    pub next: MtkInstallNext,
}

/// Whether an event is the outcome of what an installation stage waits for.
pub open spec fn mtk_install_event_fits(stage: MtkInstallStage, event: MtkInstallEvent) -> bool {
    match stage {
        MtkInstallStage::Start => event is Begin,
        MtkInstallStage::AwaitPrepare => event is Done,
        MtkInstallStage::AwaitInstaller => event is Located,
        MtkInstallStage::AwaitRun => event is Exit,
        MtkInstallStage::AwaitCheck => event is Installed,
    }
}

/// What an elevated installer's exit code means: success, or the error's text.
pub open spec fn elevated_exit_outcome(code: i32) -> Result<(), Seq<char>> {
    if code == 0 {
        Ok(())
    } else if code == 1223 {
        Err("MTK 드라이버 설치가 관리자 권한 확인 창에서 취소되었습니다."@)
    } else {
        Err("MTK 드라이버 설치 명령이 실패했습니다. exit_code="@ + int_text(code as int))
    }
}

/// What one step of the installation does.
pub open spec fn mtk_install_step_spec(
    ctx: MtkContext,
    stage: MtkInstallStage,
    event: MtkInstallEvent,
    step: MtkInstallStep,
) -> bool {
    let acts = rt_actions_view(step.actions@);
    match stage {
        MtkInstallStage::Start => if !ctx.on_windows {
            &&& acts == seq![RtActionView::Log("[Driver] MTK 드라이버 설치는 Windows에서만 지원됩니다."@)]
            &&& step.next matches MtkInstallNext::Finish(Err(LpmError::InvalidFirmwareFolder(m)))
            &&& m@ == "MTK 드라이버 설치는 Windows에서만 지원됩니다."@
        } else {
            acts.len() == 0 && step.next matches MtkInstallNext::Await(
                MtkInstallRequest::Prepare,
                MtkInstallStage::AwaitPrepare,
            )
        },
        MtkInstallStage::AwaitPrepare => match event {
            MtkInstallEvent::Done(Err(e)) => acts.len() == 0 && step.next == MtkInstallNext::Finish(Err(e)),
            MtkInstallEvent::Done(Ok(())) => acts.len() == 0 && step.next matches MtkInstallNext::Await(
                MtkInstallRequest::LocateInstaller,
                MtkInstallStage::AwaitInstaller,
            ),
            _ => false,
        },
        MtkInstallStage::AwaitInstaller => match event {
            MtkInstallEvent::Located(None) => {
                &&& acts.len() == 0
                &&& step.next matches MtkInstallNext::Finish(Err(LpmError::FileNotFound(m)))
                &&& m@ == "MTK 드라이버 설치 파일을 찾지 못했습니다: "@ + ctx.driver_dir@
            },
            MtkInstallEvent::Located(Some(path)) => {
                &&& acts == seq![RtActionView::Log("[Driver] MTK 드라이버 설치 파일을 실행합니다: "@ + path@)]
                &&& step.next matches MtkInstallNext::Await(
                    MtkInstallRequest::RunElevated(p),
                    MtkInstallStage::AwaitRun,
                )
                &&& p@ == path@
            },
            _ => false,
        },
        MtkInstallStage::AwaitRun => match event {
            MtkInstallEvent::Exit(Err(e)) => acts.len() == 0 && step.next == MtkInstallNext::Finish(Err(e)),
            MtkInstallEvent::Exit(Ok(code)) => match elevated_exit_outcome(code) {
                Err(text) => {
                    &&& acts.len() == 0
                    &&& step.next matches MtkInstallNext::Finish(Err(LpmError::InvalidFirmwareFolder(m)))
                    &&& m@ == text
                },
                Ok(()) => acts.len() == 0 && step.next matches MtkInstallNext::Await(
                    MtkInstallRequest::CheckInstalled,
                    MtkInstallStage::AwaitCheck,
                ),
            },
            _ => false,
        },
        MtkInstallStage::AwaitCheck => match event {
            MtkInstallEvent::Installed(Err(e)) => acts.len() == 0 && step.next == MtkInstallNext::Finish(Err(e)),
            MtkInstallEvent::Installed(Ok(true)) => acts == seq![
                RtActionView::Log("[Driver] MTK 드라이버 설치 감지 완료"@),
            ] && step.next == MtkInstallNext::Finish(Ok(())),
            MtkInstallEvent::Installed(Ok(false)) => {
                &&& acts.len() == 0
                &&& step.next matches MtkInstallNext::Finish(Err(LpmError::InvalidFirmwareFolder(m)))
                &&& m@ == "MTK 드라이버 설치 완료를 확인하지 못했습니다. 설치 창을 완료한 뒤 다시 시도해주세요."@
            },
            _ => false,
        },
    }
}

/// `install_mtk_driver`, one step at a time: the package is prepared, its
/// installer run elevated, and the installation succeeds only if a check then
/// finds the driver.
pub fn install_mtk_driver(ctx: &MtkContext, stage: MtkInstallStage, event: MtkInstallEvent) -> (step:
    MtkInstallStep)
    requires
        mtk_install_event_fits(stage, event),
    ensures
        mtk_install_step_spec(*ctx, stage, event, step),
{
    let mut acts: Vec<RtAction> = Vec::new();
    match stage {
        MtkInstallStage::Start => {
            if !ctx.on_windows {
                acts.push(log("[Driver] MTK 드라이버 설치는 Windows에서만 지원됩니다."));
                let step = MtkInstallStep {
                    actions: acts,
                    next: MtkInstallNext::Finish(
                        Err(LpmError::InvalidFirmwareFolder("MTK 드라이버 설치는 Windows에서만 지원됩니다.".to_string())),
                    ),
                };
                assert(rt_actions_view(step.actions@) =~= seq![
                    RtActionView::Log("[Driver] MTK 드라이버 설치는 Windows에서만 지원됩니다."@),
                ]);
                step
            } else {
                let step = MtkInstallStep {
                    actions: acts,
                    next: MtkInstallNext::Await(MtkInstallRequest::Prepare, MtkInstallStage::AwaitPrepare),
                };
                assert(rt_actions_view(step.actions@).len() == 0);
                step
            }
        },
        MtkInstallStage::AwaitPrepare => match event {
            MtkInstallEvent::Done(Err(e)) => MtkInstallStep { actions: acts, next: MtkInstallNext::Finish(Err(e)) },
            _ => {
                let step = MtkInstallStep {
                    actions: acts,
                    next: MtkInstallNext::Await(MtkInstallRequest::LocateInstaller, MtkInstallStage::AwaitInstaller),
                };
                assert(rt_actions_view(step.actions@).len() == 0);
                step
            },
        },
        MtkInstallStage::AwaitInstaller => match event {
            MtkInstallEvent::Located(Some(path)) => {
                let ghost pv = path@;
                acts.push(log2("[Driver] MTK 드라이버 설치 파일을 실행합니다: ", path.as_str()));
                let step = MtkInstallStep {
                    actions: acts,
                    next: MtkInstallNext::Await(MtkInstallRequest::RunElevated(path), MtkInstallStage::AwaitRun),
                };
                assert(rt_actions_view(step.actions@) =~= seq![
                    RtActionView::Log("[Driver] MTK 드라이버 설치 파일을 실행합니다: "@ + pv),
                ]);
                step
            },
            _ => {
                let mut c = chars_of("MTK 드라이버 설치 파일을 찾지 못했습니다: ");
                append_str(&mut c, ctx.driver_dir.as_str());
                MtkInstallStep {
                    actions: acts,
                    next: MtkInstallNext::Finish(Err(LpmError::FileNotFound(string_of(c.as_slice())))),
                }
            },
        },
        MtkInstallStage::AwaitRun => match event {
            MtkInstallEvent::Exit(Ok(code)) => match handle_elevated_exit(code) {
                Err(e) => MtkInstallStep { actions: acts, next: MtkInstallNext::Finish(Err(e)) },
                Ok(()) => {
                    let step = MtkInstallStep {
                        actions: acts,
                        next: MtkInstallNext::Await(MtkInstallRequest::CheckInstalled, MtkInstallStage::AwaitCheck),
                    };
                    assert(rt_actions_view(step.actions@).len() == 0);
                    step
                },
            },
            MtkInstallEvent::Exit(Err(e)) => MtkInstallStep { actions: acts, next: MtkInstallNext::Finish(Err(e)) },
            _ => MtkInstallStep { actions: acts, next: MtkInstallNext::Finish(Ok(())) },
        },
        MtkInstallStage::AwaitCheck => match event {
            MtkInstallEvent::Installed(Ok(true)) => {
                acts.push(log("[Driver] MTK 드라이버 설치 감지 완료"));
                let step = MtkInstallStep { actions: acts, next: MtkInstallNext::Finish(Ok(())) };
                assert(rt_actions_view(step.actions@) =~= seq![
                    RtActionView::Log("[Driver] MTK 드라이버 설치 감지 완료"@),
                ]);
                step
            },
            MtkInstallEvent::Installed(Ok(false)) => MtkInstallStep {
                actions: acts,
                next: MtkInstallNext::Finish(
                    Err(
                        LpmError::InvalidFirmwareFolder(
                            "MTK 드라이버 설치 완료를 확인하지 못했습니다. 설치 창을 완료한 뒤 다시 시도해주세요.".to_string(),
                        ),
                    ),
                ),
            },
            MtkInstallEvent::Installed(Err(e)) => MtkInstallStep {
                actions: acts,
                next: MtkInstallNext::Finish(Err(e)),
            },
            _ => MtkInstallStep { actions: acts, next: MtkInstallNext::Finish(Ok(())) },
        },
    }
}

/// Whether the package preparation may take this stage and event.
pub fn mtk_prepare_step_allowed(stage: &MtkPrepareStage, event: &MtkEvent) -> (b: bool)
    ensures
        b == mtk_prepare_event_fits(*stage, *event),
{
    match stage {
        MtkPrepareStage::Start => matches!(event, MtkEvent::Begin),
        MtkPrepareStage::AwaitPrepared | MtkPrepareStage::AwaitInstallerFound => matches!(event, MtkEvent::Found(_)),
        _ => matches!(event, MtkEvent::Done(_)),
    }
}

/// Whether the driver installation may take this stage and event.
pub fn mtk_install_step_allowed(stage: &MtkInstallStage, event: &MtkInstallEvent) -> (b: bool)
    ensures
        b == mtk_install_event_fits(*stage, *event),
{
    match stage {
        MtkInstallStage::Start => matches!(event, MtkInstallEvent::Begin),
        MtkInstallStage::AwaitPrepare => matches!(event, MtkInstallEvent::Done(_)),
        MtkInstallStage::AwaitInstaller => matches!(event, MtkInstallEvent::Located(_)),
        MtkInstallStage::AwaitRun => matches!(event, MtkInstallEvent::Exit(_)),
        MtkInstallStage::AwaitCheck => matches!(event, MtkInstallEvent::Installed(_)),
    }
}

/// The driver installation reports success only when the check after
/// running the installer found the driver.
pub proof fn lemma_mtk_install_success_needs_check(
    ctx: MtkContext,
    stage: MtkInstallStage,
    event: MtkInstallEvent,
    step: MtkInstallStep,
)
    requires
        mtk_install_step_spec(ctx, stage, event, step),
        step.next matches MtkInstallNext::Finish(Ok(())),
    ensures
        stage == MtkInstallStage::AwaitCheck,
        event matches MtkInstallEvent::Installed(Ok(true)),
{
}

} // verus!
