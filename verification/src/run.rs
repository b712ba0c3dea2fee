//! The order of an offscreen run: set up the device, draw one frame, save
//! the picture. The backend does each step and reports how it went.

use vstd::prelude::*;

verus! {

/// How far an offscreen run has come.
#[derive(Clone, Copy, Debug, PartialEq, Eq, Structural)]
pub enum RunStage {
    /// Nothing is done yet.
    Start,
    /// The device is being set up.
    SettingUp,
    /// The frame is being drawn.
    Drawing,
    /// The picture is being saved.
    Saving,
    /// The run ended well.
    Done,
    /// A step failed and the run ended.
    Failed,
}

/// What the backend is to do next.
#[derive(Clone, Copy, Debug, PartialEq, Eq, Structural)]
pub enum RunAction {
    /// Set up the device and the offscreen target.
    SetUp,
    /// Draw one frame.
    Draw,
    /// Save the picture.
    Save,
    /// Nothing more: report success.
    ReportSuccess,
    /// Nothing more: report the failure of the last step.
    ReportFailure,
}

/// The next stage and action of a run that is at `stage` and whose last
/// step, if it made one, ended as `succeeded` says. Each step follows the
/// success of the one before; the first failure ends the run.
pub open spec fn run_step(stage: RunStage, succeeded: bool) -> (RunStage, RunAction) {
    match stage {
        RunStage::Start => (RunStage::SettingUp, RunAction::SetUp),
        RunStage::SettingUp => if succeeded {
            (RunStage::Drawing, RunAction::Draw)
        } else {
            (RunStage::Failed, RunAction::ReportFailure)
        },
        RunStage::Drawing => if succeeded {
            (RunStage::Saving, RunAction::Save)
        } else {
            (RunStage::Failed, RunAction::ReportFailure)
        },
        RunStage::Saving => if succeeded {
            (RunStage::Done, RunAction::ReportSuccess)
        } else {
            (RunStage::Failed, RunAction::ReportFailure)
        },
        RunStage::Done => (RunStage::Done, RunAction::ReportSuccess),
        RunStage::Failed => (RunStage::Failed, RunAction::ReportFailure),
    }
}

/// One step of an offscreen run: from the stage it is at and the outcome of
/// its last step to the next stage and what to do.
pub fn run_main(stage: RunStage, succeeded: bool) -> (next: (RunStage, RunAction))
    ensures
        next == run_step(stage, succeeded),
{
    match stage {
        RunStage::Start => (RunStage::SettingUp, RunAction::SetUp),
        RunStage::SettingUp => if succeeded {
            (RunStage::Drawing, RunAction::Draw)
        } else {
            (RunStage::Failed, RunAction::ReportFailure)
        },
        RunStage::Drawing => if succeeded {
            (RunStage::Saving, RunAction::Save)
        } else {
            (RunStage::Failed, RunAction::ReportFailure)
        },
        RunStage::Saving => if succeeded {
            (RunStage::Done, RunAction::ReportSuccess)
        } else {
            (RunStage::Failed, RunAction::ReportFailure)
        },
        RunStage::Done => (RunStage::Done, RunAction::ReportSuccess),
        RunStage::Failed => (RunStage::Failed, RunAction::ReportFailure),
    }
}

/// A run whose steps all succeed sets up, draws, saves and is done; a run
/// reports success only from `Saving` or `Done`.
pub proof fn lemma_run_order(a: bool, b: bool, c: bool, d: bool)
    ensures
        ({
            let s1 = run_step(RunStage::Start, a);
            let s2 = run_step(s1.0, b);
            let s3 = run_step(s2.0, c);
            let s4 = run_step(s3.0, d);
            &&& s1.1 == RunAction::SetUp
            &&& (b ==> s2.1 == RunAction::Draw)
            &&& (b && c ==> s3.1 == RunAction::Save)
            &&& (b && c && d <==> s4.0 == RunStage::Done)
            &&& (!(b && c && d) ==> s4.0 == RunStage::Failed)
        }),
{
}

} // verus!
