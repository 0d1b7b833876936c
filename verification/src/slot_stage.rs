//! Putting a tablet on boot slot A: over ADB (`bootctl`, tried up to ten
//! times), then in Fastboot (`set_active:a`, three times, twice over with a
//! reboot to the bootloader between), ending with a check of the slot Fastboot
//! reports.
//!
//! The decisions are a state machine: the program performs each request, hands
//! its outcome back as the next event, and performs the actions that come with
//! each step.
use vstd::prelude::*;
use crate::device::{bootctl_failure_logged, spinner_log, spinner_text, final_slot_check};
use crate::model::LpmError;
use crate::text::{append, append_str, chars_of, dec, dec_exec, string_of};

verus! {

/// Where the slot-A stage stands: what it is waiting for.
#[derive(Debug, Clone, Copy, PartialEq, Eq, Structural)]
pub enum SlotStage {
    /// Not begun.
    Start,
    /// Waiting for the device over USB ADB.
    AwaitAdb,
    /// Waiting for the outcome of `bootctl` attempt `attempt` (1 to 10).
    Bootctl { attempt: u32 },
    /// Waiting for the reboot into the bootloader.
    AwaitBootloader,
    /// Waiting for the device in Fastboot (the second time after the reboot
    /// to the bootloader).
    AwaitFastboot { second: bool },
    /// Waiting for the slot Fastboot reports first.
    AwaitSlot,
    /// Waiting for the outcome of `set_active:a` number `done + 1` (of three)
    /// of the first or second round.
    SetActive { second: bool, done: u32 },
    /// Waiting for the slot Fastboot reports at the end.
    AwaitFinalSlot,
}

/// What the program is asked to do and report back.
#[derive(Debug, Clone, Copy, PartialEq, Eq, Structural)]
pub enum SlotRequest {
    /// Wait until the device is ready over USB ADB.
    WaitAdb,
    /// Run `bootctl set-active-boot-slot 0` over ADB.
    BootctlSetSlot,
    /// Reboot the device into the bootloader over ADB.
    RebootBootloader,
    /// Wait (up to `secs` seconds) until a Fastboot device answers.
    WaitFastboot { secs: u64 },
    /// Read the current slot over Fastboot.
    ReadSlot,
    /// Send `set_active:a` over Fastboot.
    SetActiveA,
    /// Read the current slot over Fastboot, failing on an error.
    ReadFinalSlot,
}

/// The outcome of a request.
pub enum SlotEvent {
    /// The stage is started.
    Begin,
    /// The outcome of `WaitAdb`, `RebootBootloader`, `WaitFastboot` or `SetActiveA`.
    Done(Result<(), LpmError>),
    /// The outcome of `BootctlSetSlot`, with the error as it is shown.
    Bootctl(Result<(), String>),
    /// The slot that `ReadSlot` found, if any.
    Slot(Option<String>),
    /// The outcome of `ReadFinalSlot`.
    FinalSlot(Result<Option<String>, LpmError>),
}

/// What the program does on the way, without reporting back.
pub enum SlotAction {
    /// Show a log line.
    Log(String),
    /// Pause.
    Sleep { secs: u64 },
    /// Ask Fastboot to reboot into the bootloader; the outcome is ignored.
    FastbootRebootBootloader,
    /// Ask Fastboot to reboot; the outcome is ignored.
    FastbootReboot,
}

/// A `SlotAction` over plain values.
pub enum SlotActionView {
    Log(Seq<char>),
    Sleep(u64),
    FastbootRebootBootloader,
    FastbootReboot,
}

impl View for SlotAction {
    type V = SlotActionView;

    open spec fn view(&self) -> SlotActionView {
        match self {
            SlotAction::Log(s) => SlotActionView::Log(s@),
            SlotAction::Sleep { secs } => SlotActionView::Sleep(*secs),
            SlotAction::FastbootRebootBootloader => SlotActionView::FastbootRebootBootloader,
            SlotAction::FastbootReboot => SlotActionView::FastbootReboot,
        }
    }
}

/// The views of a list of actions.
pub open spec fn actions_view(a: Seq<SlotAction>) -> Seq<SlotActionView> {
    a.map_values(|x: SlotAction| x@)
}

/// What follows a step: a request whose outcome is the next event, in the
/// given stage, or the end of the stage.
pub enum SlotNext {
    Await(SlotRequest, SlotStage),
    Finish(Result<(), LpmError>),
}

/// One step of the stage: the actions to perform, in order, then what follows.
pub struct SlotStep {
    pub actions: Vec<SlotAction>,
    pub next: SlotNext,
}

/// Whether an event is the outcome of what a stage waits for.
pub open spec fn slot_event_fits(stage: SlotStage, event: SlotEvent) -> bool {
    match stage {
        SlotStage::Start => event is Begin,
        SlotStage::AwaitAdb | SlotStage::AwaitBootloader | SlotStage::AwaitFastboot { .. }
        | SlotStage::SetActive { .. } => event is Done,
        SlotStage::Bootctl { .. } => event is Bootctl,
        SlotStage::AwaitSlot => event is Slot,
        SlotStage::AwaitFinalSlot => event is FinalSlot,
    }
}

/// The stages the machine can be in: a `bootctl` attempt is one of ten, and a
/// round of `set_active:a` has sent fewer than three.
pub open spec fn slot_stage_valid(stage: SlotStage) -> bool {
    match stage {
        SlotStage::Bootctl { attempt } => 1 <= attempt <= 10,
        SlotStage::SetActive { done, .. } => done < 3,
        _ => true,
    }
}

/// The log line of a failed `bootctl` attempt.
pub open spec fn bootctl_retry_log(attempt: u32, err: Seq<char>) -> Seq<char> {
    "[ADB] Slot 설정 재시도 "@ + dec(attempt as nat) + "/10 실패: "@ + err
}

/// The actions that start a round of `set_active:a`.
pub open spec fn set_active_start() -> Seq<SlotActionView> {
    seq![SlotActionView::Log(spinner_text("fastboot_slot_a"@, "[Fastboot] slot A 설정 중... │"@))]
}

/// The actions after the reboot into the bootloader was asked for.
pub open spec fn after_bootloader_request() -> Seq<SlotActionView> {
    seq![SlotActionView::Log("[ADB] bootloader 모드 설정"@)]
}

/// The slot read at the end, as shown (`UNKNOWN` when none was read).
pub open spec fn final_slot_text(slot: Option<String>) -> Seq<char> {
    match slot {
        Some(v) => v@,
        None => "UNKNOWN"@,
    }
}

/// The log line of the slot read first.
pub open spec fn current_slot_log(slot: Option<String>) -> Seq<char> {
    match slot {
        Some(s) => "[Fastboot] current-slot: "@ + s@,
        None => "[Fastboot] current-slot 감지 실패, A로 설정합니다."@,
    }
}

/// What one step does, by the stage and the event.
pub open spec fn slot_step_spec(stage: SlotStage, event: SlotEvent, step: SlotStep) -> bool {
    let acts = actions_view(step.actions@);
    match stage {
        SlotStage::Start => {
            &&& acts == seq![
                SlotActionView::Log(spinner_text("adb_slot_detect"@, "[ADB] 기기를 감지하고 있습니다... │"@)),
            ]
            &&& step.next == SlotNext::Await(SlotRequest::WaitAdb, SlotStage::AwaitAdb)
        },
        SlotStage::AwaitAdb => match event {
            SlotEvent::Done(Err(e)) => acts.len() == 0 && step.next == SlotNext::Finish(Err(e)),
            SlotEvent::Done(Ok(())) => {
                &&& acts == seq![
                    SlotActionView::Log(spinner_text("adb_slot_detect"@, "[ADB] 기기 감지 완료"@)),
                    SlotActionView::Log(spinner_text("adb_slot_set"@, "[ADB] ADB 명령어로 Slot 설정 중... │"@)),
                ]
                &&& step.next == SlotNext::Await(
                    SlotRequest::BootctlSetSlot,
                    SlotStage::Bootctl { attempt: 1 },
                )
            },
            _ => false,
        },
        SlotStage::Bootctl { attempt } => match event {
            SlotEvent::Bootctl(Ok(())) => {
                &&& acts == seq![
                    SlotActionView::Log(spinner_text("adb_slot_set"@, "[ADB] ADB 명령어로 Slot 설정 완료"@)),
                ] + after_bootloader_request()
                &&& step.next == SlotNext::Await(SlotRequest::RebootBootloader, SlotStage::AwaitBootloader)
            },
            SlotEvent::Bootctl(Err(err)) => {
                let logged: Seq<SlotActionView> = if attempt == 1 || attempt == 10 {
                    seq![SlotActionView::Log(bootctl_retry_log(attempt, err@))]
                } else {
                    seq![]
                };
                if attempt < 10 {
                    &&& acts == logged + seq![SlotActionView::Sleep(2)]
                    &&& step.next == SlotNext::Await(
                        SlotRequest::BootctlSetSlot,
                        SlotStage::Bootctl { attempt: (attempt + 1) as u32 },
                    )
                } else {
                    &&& acts == logged + seq![
                        SlotActionView::Log(
                            spinner_text(
                                "adb_slot_set"@,
                                "[ADB] ADB 명령어 Slot 설정 실패, Fastboot Slot 설정으로 계속 진행합니다."@,
                            ),
                        ),
                    ] + after_bootloader_request()
                    &&& step.next == SlotNext::Await(
                        SlotRequest::RebootBootloader,
                        SlotStage::AwaitBootloader,
                    )
                }
            },
            _ => false,
        },
        SlotStage::AwaitBootloader => match event {
            SlotEvent::Done(Err(e)) => acts.len() == 0 && step.next == SlotNext::Finish(Err(e)),
            SlotEvent::Done(Ok(())) => {
                &&& acts == seq![
                    SlotActionView::Sleep(2),
                    SlotActionView::Log(spinner_text("fastboot_detect"@, "[Fastboot] 기기 감지중... │"@)),
                ]
                &&& step.next == SlotNext::Await(
                    SlotRequest::WaitFastboot { secs: 60 },
                    SlotStage::AwaitFastboot { second: false },
                )
            },
            _ => false,
        },
        SlotStage::AwaitFastboot { second } => match event {
            SlotEvent::Done(Err(e)) => acts.len() == 0 && step.next == SlotNext::Finish(Err(e)),
            SlotEvent::Done(Ok(())) => if !second {
                &&& acts == seq![
                    SlotActionView::Log(spinner_text("fastboot_detect"@, "[Fastboot] 기기 감지 완료"@)),
                ]
                &&& step.next == SlotNext::Await(SlotRequest::ReadSlot, SlotStage::AwaitSlot)
            } else {
                &&& acts == seq![
                    SlotActionView::Log(
                        spinner_text(
                            "fastboot_reboot_bootloader"@,
                            "[Fastboot] bootloader 재진입 후 Fastboot 재감지 완료"@,
                        ),
                    ),
                ] + set_active_start()
                &&& step.next == SlotNext::Await(
                    SlotRequest::SetActiveA,
                    SlotStage::SetActive { second: true, done: 0 },
                )
            },
            _ => false,
        },
        SlotStage::AwaitSlot => match event {
            SlotEvent::Slot(slot) => {
                let line = current_slot_log(slot);
                &&& acts == seq![SlotActionView::Log(line)] + set_active_start()
                &&& step.next == SlotNext::Await(
                    SlotRequest::SetActiveA,
                    SlotStage::SetActive { second: false, done: 0 },
                )
            },
            _ => false,
        },
        SlotStage::SetActive { second, done } => match event {
            SlotEvent::Done(Err(e)) => acts.len() == 0 && step.next == SlotNext::Finish(Err(e)),
            SlotEvent::Done(Ok(())) => if done + 1 < 3 {
                &&& acts == seq![SlotActionView::Sleep(1)]
                &&& step.next == SlotNext::Await(
                    SlotRequest::SetActiveA,
                    SlotStage::SetActive { second, done: (done + 1) as u32 },
                )
            } else {
                let finished = seq![
                    SlotActionView::Sleep(1),
                    SlotActionView::Log(spinner_text("fastboot_slot_a"@, "[Fastboot] slot A 설정 완료"@)),
                ];
                if !second {
                    &&& acts == finished + seq![
                        SlotActionView::Log(
                            spinner_text(
                                "fastboot_reboot_bootloader"@,
                                "[Fastboot] bootloader 재진입 후 Fastboot 재감지 중... │"@,
                            ),
                        ),
                        SlotActionView::FastbootRebootBootloader,
                        SlotActionView::Sleep(2),
                    ]
                    &&& step.next == SlotNext::Await(
                        SlotRequest::WaitFastboot { secs: 60 },
                        SlotStage::AwaitFastboot { second: true },
                    )
                } else {
                    &&& acts == finished
                    &&& step.next == SlotNext::Await(SlotRequest::ReadFinalSlot, SlotStage::AwaitFinalSlot)
                }
            },
            _ => false,
        },
        SlotStage::AwaitFinalSlot => match event {
            SlotEvent::FinalSlot(Err(e)) => acts.len() == 0 && step.next == SlotNext::Finish(Err(e)),
            SlotEvent::FinalSlot(Ok(slot)) => {
                let s = final_slot_text(slot);
                let checked = seq![SlotActionView::Log("[Fastboot] current-slot 재확인: "@ + s)];
                if s == "_a"@ {
                    &&& acts == checked + seq![
                        SlotActionView::Log("[Fastboot] 확인 완료"@),
                        SlotActionView::Log(
                            spinner_text("fastboot_stabilize"@, "[Fastboot] 안정화를 위해 5초 대기합니다... │"@),
                        ),
                        SlotActionView::Sleep(5),
                        SlotActionView::Log(spinner_text("fastboot_stabilize"@, "[Fastboot] 안정화 대기 완료"@)),
                    ]
                    &&& step.next == SlotNext::Finish(Ok(()))
                } else {
                    &&& acts == checked + seq![SlotActionView::FastbootReboot]
                    &&& step.next matches SlotNext::Finish(Err(LpmError::Fastboot(m)))
                    &&& m@ == "slot A 설정 실패 / 최종 slot: "@ + s
                }
            },
            _ => false,
        },
    }
}

/// A spinner log action.
fn spin_action(key: &str, message: &str) -> (a: SlotAction)
    ensures
        a@ == SlotActionView::Log(spinner_text(key@, message@)),
{
    SlotAction::Log(spinner_log(key, message))
}

/// A plain log action.
fn log_action(line: &str) -> (a: SlotAction)
    ensures
        a@ == SlotActionView::Log(line@),
{
    SlotAction::Log(line.to_string())
}

/// The step after a `bootctl` attempt.
fn bootctl_step(attempt: u32, outcome: Result<(), String>) -> (step: SlotStep)
    requires
        1 <= attempt <= 10,
    ensures
        slot_step_spec(SlotStage::Bootctl { attempt }, SlotEvent::Bootctl(outcome), step),
{
    let mut acts: Vec<SlotAction> = Vec::new();
    match outcome {
        Ok(()) => {
            acts.push(spin_action("adb_slot_set", "[ADB] ADB 명령어로 Slot 설정 완료"));
            acts.push(log_action("[ADB] bootloader 모드 설정"));
            let step = SlotStep {
                actions: acts,
                next: SlotNext::Await(SlotRequest::RebootBootloader, SlotStage::AwaitBootloader),
            };
            assert(actions_view(step.actions@) =~= seq![
                SlotActionView::Log(spinner_text("adb_slot_set"@, "[ADB] ADB 명령어로 Slot 설정 완료"@)),
            ] + after_bootloader_request());
            step
        },
        Err(err) => {
            let ghost ev = err@;
            if bootctl_failure_logged(attempt) {
                let mut line = chars_of("[ADB] Slot 설정 재시도 ");
                let d = dec_exec(attempt as u64);
                append(&mut line, d.as_slice());
                append_str(&mut line, "/10 실패: ");
                let e = chars_of(err.as_str());
                append(&mut line, e.as_slice());
                acts.push(SlotAction::Log(string_of(line.as_slice())));
            }
            let ghost logged: Seq<SlotActionView> = if attempt == 1 || attempt == 10 {
                seq![SlotActionView::Log(bootctl_retry_log(attempt, ev))]
            } else {
                seq![]
            };
            assert(actions_view(acts@) =~= logged);
            if attempt < 10 {
                acts.push(SlotAction::Sleep { secs: 2 });
                let step = SlotStep {
                    actions: acts,
                    next: SlotNext::Await(
                        SlotRequest::BootctlSetSlot,
                        SlotStage::Bootctl { attempt: attempt + 1 },
                    ),
                };
                assert(actions_view(step.actions@) =~= logged + seq![SlotActionView::Sleep(2)]);
                step
            } else {
                acts.push(
                    spin_action(
                        "adb_slot_set",
                        "[ADB] ADB 명령어 Slot 설정 실패, Fastboot Slot 설정으로 계속 진행합니다.",
                    ),
                );
                acts.push(log_action("[ADB] bootloader 모드 설정"));
                let step = SlotStep {
                    actions: acts,
                    next: SlotNext::Await(SlotRequest::RebootBootloader, SlotStage::AwaitBootloader),
                };
                assert(actions_view(step.actions@) =~= logged + seq![
                    SlotActionView::Log(
                        spinner_text(
                            "adb_slot_set"@,
                            "[ADB] ADB 명령어 Slot 설정 실패, Fastboot Slot 설정으로 계속 진행합니다."@,
                        ),
                    ),
                ] + after_bootloader_request());
                step
            }
        },
    }
}

/// The step after the slot read at the end.
fn final_slot_step(outcome: Result<Option<String>, LpmError>) -> (step: SlotStep)
    ensures
        slot_step_spec(SlotStage::AwaitFinalSlot, SlotEvent::FinalSlot(outcome), step),
{
    match outcome {
        Err(e) => SlotStep { actions: Vec::new(), next: SlotNext::Finish(Err(e)) },
        Ok(slot) => {
            let ghost sv = final_slot_text(slot);
            let mut line = chars_of("[Fastboot] current-slot 재확인: ");
            let s = match &slot {
                Some(v) => chars_of(v.as_str()),
                None => chars_of("UNKNOWN"),
            };
            append(&mut line, s.as_slice());
            let mut acts: Vec<SlotAction> = Vec::new();
            acts.push(SlotAction::Log(string_of(line.as_slice())));
            let checked = match &slot {
                Some(v) => final_slot_check(Some(v.as_str())),
                None => final_slot_check(None),
            };
            match checked {
                Ok(()) => {
                    acts.push(log_action("[Fastboot] 확인 완료"));
                    acts.push(
                        spin_action("fastboot_stabilize", "[Fastboot] 안정화를 위해 5초 대기합니다... │"),
                    );
                    acts.push(SlotAction::Sleep { secs: 5 });
                    acts.push(spin_action("fastboot_stabilize", "[Fastboot] 안정화 대기 완료"));
                    let step = SlotStep { actions: acts, next: SlotNext::Finish(Ok(())) };
                    assert(actions_view(step.actions@) =~= seq![
                        SlotActionView::Log("[Fastboot] current-slot 재확인: "@ + sv),
                    ] + seq![
                        SlotActionView::Log("[Fastboot] 확인 완료"@),
                        SlotActionView::Log(
                            spinner_text("fastboot_stabilize"@, "[Fastboot] 안정화를 위해 5초 대기합니다... │"@),
                        ),
                        SlotActionView::Sleep(5),
                        SlotActionView::Log(spinner_text("fastboot_stabilize"@, "[Fastboot] 안정화 대기 완료"@)),
                    ]);
                    step
                },
                Err(e) => {
                    acts.push(SlotAction::FastbootReboot);
                    let step = SlotStep { actions: acts, next: SlotNext::Finish(Err(e)) };
                    assert(actions_view(step.actions@) =~= seq![
                        SlotActionView::Log("[Fastboot] current-slot 재확인: "@ + sv),
                    ] + seq![SlotActionView::FastbootReboot]);
                    step
                },
            }
        },
    }
}

/// The step after one `set_active:a`.
fn set_active_step(second: bool, done: u32, outcome: Result<(), LpmError>) -> (step: SlotStep)
    requires
        done < 3,
    ensures
        slot_step_spec(SlotStage::SetActive { second, done }, SlotEvent::Done(outcome), step),
{
    match outcome {
        Err(e) => SlotStep { actions: Vec::new(), next: SlotNext::Finish(Err(e)) },
        Ok(()) => {
            let mut acts: Vec<SlotAction> = Vec::new();
            acts.push(SlotAction::Sleep { secs: 1 });
            if done + 1 < 3 {
                let step = SlotStep {
                    actions: acts,
                    next: SlotNext::Await(
                        SlotRequest::SetActiveA,
                        SlotStage::SetActive { second, done: done + 1 },
                    ),
                };
                assert(actions_view(step.actions@) =~= seq![SlotActionView::Sleep(1)]);
                return step;
            }
            acts.push(spin_action("fastboot_slot_a", "[Fastboot] slot A 설정 완료"));
            let ghost finished = seq![
                SlotActionView::Sleep(1),
                SlotActionView::Log(spinner_text("fastboot_slot_a"@, "[Fastboot] slot A 설정 완료"@)),
            ];
            assert(actions_view(acts@) =~= finished);
            if !second {
                acts.push(
                    spin_action(
                        "fastboot_reboot_bootloader",
                        "[Fastboot] bootloader 재진입 후 Fastboot 재감지 중... │",
                    ),
                );
                acts.push(SlotAction::FastbootRebootBootloader);
                acts.push(SlotAction::Sleep { secs: 2 });
                let step = SlotStep {
                    actions: acts,
                    next: SlotNext::Await(
                        SlotRequest::WaitFastboot { secs: 60 },
                        SlotStage::AwaitFastboot { second: true },
                    ),
                };
                assert(actions_view(step.actions@) =~= finished + seq![
                    SlotActionView::Log(
                        spinner_text(
                            "fastboot_reboot_bootloader"@,
                            "[Fastboot] bootloader 재진입 후 Fastboot 재감지 중... │"@,
                        ),
                    ),
                    SlotActionView::FastbootRebootBootloader,
                    SlotActionView::Sleep(2),
                ]);
                step
            } else {
                SlotStep {
                    actions: acts,
                    next: SlotNext::Await(SlotRequest::ReadFinalSlot, SlotStage::AwaitFinalSlot),
                }
            }
        },
    }
}

/// `run_current_slot_a_stage`, one step at a time: from the stage and the
/// outcome of what it waited for, the actions to perform and what follows.
/// Every step keeps the stage valid, so `bootctl` is tried at most ten times.
pub fn run_current_slot_a_stage(stage: SlotStage, event: SlotEvent) -> (step: SlotStep)
    requires
        slot_stage_valid(stage),
        slot_event_fits(stage, event),
    ensures
        slot_step_spec(stage, event, step),
        step.next matches SlotNext::Await(_, next) ==> slot_stage_valid(next),
{
    match stage {
        SlotStage::Start => {
            let mut acts: Vec<SlotAction> = Vec::new();
            acts.push(spin_action("adb_slot_detect", "[ADB] 기기를 감지하고 있습니다... │"));
            let step = SlotStep {
                actions: acts,
                next: SlotNext::Await(SlotRequest::WaitAdb, SlotStage::AwaitAdb),
            };
            assert(actions_view(step.actions@) =~= seq![
                SlotActionView::Log(spinner_text("adb_slot_detect"@, "[ADB] 기기를 감지하고 있습니다... │"@)),
            ]);
            step
        },
        SlotStage::AwaitAdb => match event {
            SlotEvent::Done(Err(e)) => SlotStep { actions: Vec::new(), next: SlotNext::Finish(Err(e)) },
            _ => {
                let mut acts: Vec<SlotAction> = Vec::new();
                acts.push(spin_action("adb_slot_detect", "[ADB] 기기 감지 완료"));
                acts.push(spin_action("adb_slot_set", "[ADB] ADB 명령어로 Slot 설정 중... │"));
                let step = SlotStep {
                    actions: acts,
                    next: SlotNext::Await(
                        SlotRequest::BootctlSetSlot,
                        SlotStage::Bootctl { attempt: 1 },
                    ),
                };
                assert(actions_view(step.actions@) =~= seq![
                    SlotActionView::Log(spinner_text("adb_slot_detect"@, "[ADB] 기기 감지 완료"@)),
                    SlotActionView::Log(spinner_text("adb_slot_set"@, "[ADB] ADB 명령어로 Slot 설정 중... │"@)),
                ]);
                step
            },
        },
        SlotStage::Bootctl { attempt } => match event {
            SlotEvent::Bootctl(outcome) => bootctl_step(attempt, outcome),
            _ => SlotStep { actions: Vec::new(), next: SlotNext::Finish(Ok(())) },
        },
        SlotStage::AwaitBootloader => match event {
            SlotEvent::Done(Err(e)) => SlotStep { actions: Vec::new(), next: SlotNext::Finish(Err(e)) },
            _ => {
                let mut acts: Vec<SlotAction> = Vec::new();
                acts.push(SlotAction::Sleep { secs: 2 });
                acts.push(spin_action("fastboot_detect", "[Fastboot] 기기 감지중... │"));
                let step = SlotStep {
                    actions: acts,
                    next: SlotNext::Await(
                        SlotRequest::WaitFastboot { secs: 60 },
                        SlotStage::AwaitFastboot { second: false },
                    ),
                };
                assert(actions_view(step.actions@) =~= seq![
                    SlotActionView::Sleep(2),
                    SlotActionView::Log(spinner_text("fastboot_detect"@, "[Fastboot] 기기 감지중... │"@)),
                ]);
                step
            },
        },
        SlotStage::AwaitFastboot { second } => match event {
            SlotEvent::Done(Err(e)) => SlotStep { actions: Vec::new(), next: SlotNext::Finish(Err(e)) },
            _ => {
                let mut acts: Vec<SlotAction> = Vec::new();
                if !second {
                    acts.push(spin_action("fastboot_detect", "[Fastboot] 기기 감지 완료"));
                    let step = SlotStep {
                        actions: acts,
                        next: SlotNext::Await(SlotRequest::ReadSlot, SlotStage::AwaitSlot),
                    };
                    assert(actions_view(step.actions@) =~= seq![
                        SlotActionView::Log(spinner_text("fastboot_detect"@, "[Fastboot] 기기 감지 완료"@)),
                    ]);
                    step
                } else {
                    acts.push(
                        spin_action(
                            "fastboot_reboot_bootloader",
                            "[Fastboot] bootloader 재진입 후 Fastboot 재감지 완료",
                        ),
                    );
                    acts.push(spin_action("fastboot_slot_a", "[Fastboot] slot A 설정 중... │"));
                    let step = SlotStep {
                        actions: acts,
                        next: SlotNext::Await(
                            SlotRequest::SetActiveA,
                            SlotStage::SetActive { second: true, done: 0 },
                        ),
                    };
                    assert(actions_view(step.actions@) =~= seq![
                        SlotActionView::Log(
                            spinner_text(
                                "fastboot_reboot_bootloader"@,
                                "[Fastboot] bootloader 재진입 후 Fastboot 재감지 완료"@,
                            ),
                        ),
                    ] + set_active_start());
                    step
                }
            },
        },
        SlotStage::AwaitSlot => match event {
            SlotEvent::Slot(slot) => {
                let ghost line = current_slot_log(slot);
                let mut acts: Vec<SlotAction> = Vec::new();
                match slot {
                    Some(s) => {
                        let mut l = chars_of("[Fastboot] current-slot: ");
                        let c = chars_of(s.as_str());
                        append(&mut l, c.as_slice());
                        acts.push(SlotAction::Log(string_of(l.as_slice())));
                    },
                    None => {
                        acts.push(log_action("[Fastboot] current-slot 감지 실패, A로 설정합니다."));
                    },
                }
                acts.push(spin_action("fastboot_slot_a", "[Fastboot] slot A 설정 중... │"));
                let step = SlotStep {
                    actions: acts,
                    next: SlotNext::Await(
                        SlotRequest::SetActiveA,
                        SlotStage::SetActive { second: false, done: 0 },
                    ),
                };
                assert(actions_view(step.actions@) =~= seq![SlotActionView::Log(line)] + set_active_start());
                step
            },
            _ => SlotStep { actions: Vec::new(), next: SlotNext::Finish(Ok(())) },
        },
        SlotStage::SetActive { second, done } => match event {
            SlotEvent::Done(outcome) => set_active_step(second, done, outcome),
            _ => SlotStep { actions: Vec::new(), next: SlotNext::Finish(Ok(())) },
        },
        SlotStage::AwaitFinalSlot => match event {
            SlotEvent::FinalSlot(outcome) => final_slot_step(outcome),
            _ => SlotStep { actions: Vec::new(), next: SlotNext::Finish(Ok(())) },
        },
    }
}

/// Whether `run_current_slot_a_stage` may take this stage and event: the stage
/// is valid and the event is the outcome of what it waits for.
pub fn slot_step_allowed(stage: &SlotStage, event: &SlotEvent) -> (b: bool)
    ensures
        b == (slot_stage_valid(*stage) && slot_event_fits(*stage, *event)),
{
    match stage {
        SlotStage::Start => matches!(event, SlotEvent::Begin),
        SlotStage::AwaitAdb | SlotStage::AwaitBootloader | SlotStage::AwaitFastboot { .. } => matches!(
            event,
            SlotEvent::Done(_)
        ),
        SlotStage::SetActive { done, .. } => *done < 3 && matches!(event, SlotEvent::Done(_)),
        SlotStage::Bootctl { attempt } => 1 <= *attempt && *attempt <= 10 && matches!(
            event,
            SlotEvent::Bootctl(_)
        ),
        SlotStage::AwaitSlot => matches!(event, SlotEvent::Slot(_)),
        SlotStage::AwaitFinalSlot => matches!(event, SlotEvent::FinalSlot(_)),
    }
}

/// Where the reboot that starts a ROM installation stands.
#[derive(Debug, Clone, Copy, PartialEq, Eq, Structural)]
pub enum RebootStage {
    Start,
    /// Waiting for the outcome of `adb reboot`.
    AwaitAdbReboot,
    /// Waiting for the outcome of `fastboot reboot`.
    AwaitFastbootReboot,
}

/// What the program is asked to do next.
#[derive(Debug, Clone, Copy, PartialEq, Eq, Structural)]
pub enum RebootRequest {
    /// Reboot the device over ADB.
    AdbReboot,
    /// Reboot the device over Fastboot.
    FastbootReboot,
}

/// One step of the reboot: log lines, then the request to perform (whose
/// success is the next step's input), or none at the end.
pub struct RebootStep {
    pub logs: Vec<String>,
    pub next: Option<(RebootRequest, RebootStage)>,
}

/// What one step of the reboot does; `ok` is the outcome of the request the
/// stage waits for (ignored at the start).
pub open spec fn reboot_step_spec(stage: RebootStage, ok: bool, step: RebootStep) -> bool {
    let logs = crate::text::string_views(step.logs@);
    let key = "reboot_device"@;
    match stage {
        RebootStage::Start => {
            &&& logs == seq![spinner_text(key, "[ADB] adb reboot 1회 실행 중... │"@)]
            &&& step.next == Some((RebootRequest::AdbReboot, RebootStage::AwaitAdbReboot))
        },
        RebootStage::AwaitAdbReboot => {
            &&& logs == seq![
                spinner_text(
                    key,
                    if ok {
                        "[ADB] adb reboot 1회 실행 완료"@
                    } else {
                        "[ADB] adb reboot 1회 실행 실패, Fastboot 명령을 계속 시도합니다."@
                    },
                ),
                spinner_text(key, "[Fastboot] fastboot reboot 1회 실행 중... │"@),
            ]
            &&& step.next == Some((RebootRequest::FastbootReboot, RebootStage::AwaitFastbootReboot))
        },
        RebootStage::AwaitFastbootReboot => {
            &&& logs == seq![
                spinner_text(
                    key,
                    if ok {
                        "[Fastboot] fastboot reboot 1회 실행 완료"@
                    } else {
                        "[Fastboot] fastboot reboot 1회 실행 실패, PreLoader 감지를 계속합니다."@
                    },
                ),
            ]
            &&& step.next is None
        },
    }
}

/// `trigger_rom_install_reboot_commands`, one step at a time: `adb reboot`,
/// then `fastboot reboot`, each tried once; a failure is logged and the
/// sequence goes on.
pub fn trigger_rom_install_reboot_commands(stage: RebootStage, ok: bool) -> (step: RebootStep)
    ensures
        reboot_step_spec(stage, ok, step),
{
    let mut logs: Vec<String> = Vec::new();
    match stage {
        RebootStage::Start => {
            logs.push(spinner_log("reboot_device", "[ADB] adb reboot 1회 실행 중... │"));
            let step = RebootStep {
                logs,
                next: Some((RebootRequest::AdbReboot, RebootStage::AwaitAdbReboot)),
            };
            assert(crate::text::string_views(step.logs@) =~= seq![
                spinner_text("reboot_device"@, "[ADB] adb reboot 1회 실행 중... │"@),
            ]);
            step
        },
        RebootStage::AwaitAdbReboot => {
            let done = if ok {
                "[ADB] adb reboot 1회 실행 완료"
            } else {
                "[ADB] adb reboot 1회 실행 실패, Fastboot 명령을 계속 시도합니다."
            };
            logs.push(spinner_log("reboot_device", done));
            logs.push(spinner_log("reboot_device", "[Fastboot] fastboot reboot 1회 실행 중... │"));
            let step = RebootStep {
                logs,
                next: Some((RebootRequest::FastbootReboot, RebootStage::AwaitFastbootReboot)),
            };
            assert(crate::text::string_views(step.logs@) =~= seq![
                spinner_text("reboot_device"@, done@),
                spinner_text("reboot_device"@, "[Fastboot] fastboot reboot 1회 실행 중... │"@),
            ]);
            step
        },
        RebootStage::AwaitFastbootReboot => {
            let done = if ok {
                "[Fastboot] fastboot reboot 1회 실행 완료"
            } else {
                "[Fastboot] fastboot reboot 1회 실행 실패, PreLoader 감지를 계속합니다."
            };
            logs.push(spinner_log("reboot_device", done));
            let step = RebootStep { logs, next: None };
            assert(crate::text::string_views(step.logs@) =~= seq![spinner_text("reboot_device"@, done@)]);
            step
        },
    }
}

/// The stage ends in success only after the slot Fastboot reports at the end
/// was read and is `_a`.
pub proof fn lemma_slot_stage_succeeds_only_on_slot_a(stage: SlotStage, event: SlotEvent, step: SlotStep)
    requires
        slot_step_spec(stage, event, step),
        step.next matches SlotNext::Finish(Ok(())),
    ensures
        stage == SlotStage::AwaitFinalSlot,
        event matches SlotEvent::FinalSlot(Ok(slot)) && final_slot_text(slot) == "_a"@,
{
}

/// Every step from a valid stage leads to a valid stage: `bootctl` is tried
/// at most ten times and each round sends `set_active:a` three times.
pub proof fn lemma_slot_steps_stay_valid(stage: SlotStage, event: SlotEvent, step: SlotStep)
    requires
        slot_stage_valid(stage),
        slot_step_spec(stage, event, step),
    ensures
        step.next matches SlotNext::Await(_, next) ==> slot_stage_valid(next),
{
}

/// A failure of a request the stage depends on (waiting for the device, the
/// reboot into the bootloader, `set_active:a`, the final slot read) ends the
/// stage with that very error, and nothing more is done.
pub proof fn lemma_slot_stage_failure_propagates(stage: SlotStage, event: SlotEvent, step: SlotStep)
    requires
        slot_event_fits(stage, event),
        slot_step_spec(stage, event, step),
        event matches SlotEvent::Done(Err(_)) || event matches SlotEvent::FinalSlot(Err(_)),
    ensures
        step.actions@.len() == 0,
        match event {
            SlotEvent::Done(Err(e)) => step.next == SlotNext::Finish(Err(e)),
            SlotEvent::FinalSlot(Err(e)) => step.next == SlotNext::Finish(Err(e)),
            _ => false,
        },
{
    assert(actions_view(step.actions@).len() == step.actions@.len());
}

/// A failed `bootctl` attempt never ends the stage: it is retried, and after
/// the tenth the stage goes on in Fastboot.
pub proof fn lemma_bootctl_failure_never_fatal(attempt: u32, err: String, step: SlotStep)
    requires
        slot_step_spec(SlotStage::Bootctl { attempt }, SlotEvent::Bootctl(Err(err)), step),
    ensures
        step.next matches SlotNext::Await(req, _) && (req == SlotRequest::BootctlSetSlot
            || req == SlotRequest::RebootBootloader),
{
}

} // verus!
