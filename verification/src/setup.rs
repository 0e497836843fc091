//! The one-time setup of the graphics context, as a sequence of steps.
//!
//! The caller performs each step against the window system and the GPU and
//! reports how it went; [`Setup`] says which step comes next, when the context
//! is ready, and which error a failure is.

use vstd::prelude::*;
use crate::error::{ErrorClass, SetupStep, StartupError};

verus! {

/// How far the setup has come.
#[derive(Clone, Copy, Debug, PartialEq, Eq, Structural)]
pub enum SetupStage {
    /// The step to take next.
    Pending(SetupStep),
    /// Every step is done; frames can be rendered.
    Ready,
    /// A step failed with an error of this class; the setup is over.
    Failed(ErrorClass),
}

impl SetupStep {
    /// Position of the step in the order of the setup, from 0.
    pub open spec fn index(self) -> nat {
        match self {
            SetupStep::CreateSurface => 0,
            SetupStep::RequestAdapter => 1,
            SetupStep::RequestDevice => 2,
            SetupStep::ConfigureSurface => 3,
            SetupStep::CompileShaders => 4,
            SetupStep::UploadGeometry => 5,
            SetupStep::CreateUniformBuffer => 6,
            SetupStep::CreateBindings => 7,
            SetupStep::CreatePipeline => 8,
        }
    }

    /// What follows the step when it succeeds.
    pub open spec fn successor(self) -> SetupStage {
        match self {
            SetupStep::CreateSurface => SetupStage::Pending(SetupStep::RequestAdapter),
            SetupStep::RequestAdapter => SetupStage::Pending(SetupStep::RequestDevice),
            SetupStep::RequestDevice => SetupStage::Pending(SetupStep::ConfigureSurface),
            SetupStep::ConfigureSurface => SetupStage::Pending(SetupStep::CompileShaders),
            SetupStep::CompileShaders => SetupStage::Pending(SetupStep::UploadGeometry),
            SetupStep::UploadGeometry => SetupStage::Pending(SetupStep::CreateUniformBuffer),
            SetupStep::CreateUniformBuffer => SetupStage::Pending(SetupStep::CreateBindings),
            SetupStep::CreateBindings => SetupStage::Pending(SetupStep::CreatePipeline),
            SetupStep::CreatePipeline => SetupStage::Ready,
        }
    }

    /// What follows the step when it succeeds.
    pub fn next(self) -> (stage: SetupStage)
        ensures
            stage == self.successor(),
    {
        match self {
            SetupStep::CreateSurface => SetupStage::Pending(SetupStep::RequestAdapter),
            SetupStep::RequestAdapter => SetupStage::Pending(SetupStep::RequestDevice),
            SetupStep::RequestDevice => SetupStage::Pending(SetupStep::ConfigureSurface),
            SetupStep::ConfigureSurface => SetupStage::Pending(SetupStep::CompileShaders),
            SetupStep::CompileShaders => SetupStage::Pending(SetupStep::UploadGeometry),
            SetupStep::UploadGeometry => SetupStage::Pending(SetupStep::CreateUniformBuffer),
            SetupStep::CreateUniformBuffer => SetupStage::Pending(SetupStep::CreateBindings),
            SetupStep::CreateBindings => SetupStage::Pending(SetupStep::CreatePipeline),
            SetupStep::CreatePipeline => SetupStage::Ready,
        }
    }
}

/// Number of steps of the setup.
pub const SETUP_STEPS: usize = 9;

/// The stage after the pending step, if there is one, went as `succeeded` says.
/// A setup that is ready or has failed stays as it is.
pub open spec fn advance(stage: SetupStage, succeeded: bool) -> SetupStage {
    match stage {
        SetupStage::Pending(step) => if succeeded {
            step.successor()
        } else {
            SetupStage::Failed(step.failure_class())
        },
        _ => stage,
    }
}

/// The stage after a run of steps that went as `outcomes` say, one after another.
pub open spec fn after_steps(stage: SetupStage, outcomes: Seq<bool>) -> SetupStage
    decreases outcomes.len(),
{
    if outcomes.len() == 0 {
        stage
    } else {
        advance(after_steps(stage, outcomes.drop_last()), outcomes.last())
    }
}

/// Where a setup starts.
pub open spec fn initial_stage() -> SetupStage {
    SetupStage::Pending(SetupStep::CreateSurface)
}

/// The progress of one setup.
pub struct Setup {
    stage: SetupStage,
}

impl View for Setup {
    type V = SetupStage;

    closed spec fn view(&self) -> SetupStage {
        self.stage
    }
}

impl Setup {
    /// A setup with every step still to take.
    pub fn new() -> (setup: Setup)
        ensures
            setup@ == initial_stage(),
    {
        Setup { stage: SetupStage::Pending(SetupStep::CreateSurface) }
    }

    /// How far the setup has come.
    pub fn stage(&self) -> (stage: SetupStage)
        ensures
            stage == self@,
    {
        self.stage
    }

    /// Whether every step is done.
    pub fn is_ready(&self) -> (ready: bool)
        ensures
            ready == (self@ == SetupStage::Ready),
    {
        match self.stage {
            SetupStage::Ready => true,
            _ => false,
        }
    }

    /// Records that the pending step succeeded and says what comes next. Nothing
    /// changes once the setup is ready or has failed.
    pub fn step_done(&mut self) -> (stage: SetupStage)
        ensures
            final(self)@ == advance(old(self)@, true),
            stage == final(self)@,
    {
        if let SetupStage::Pending(step) = self.stage {
            self.stage = step.next();
        }
        self.stage
    }

    /// Records that the pending step failed with the given diagnostic.
    ///
    /// The setup is then over, and the result is the error to report: of the
    /// compilation class when the shaders were being compiled, of the
    /// environment's class otherwise. When no step is pending, nothing changes
    /// and there is no error to report.
    pub fn step_failed(&mut self, message: String) -> (error: Option<StartupError>)
        ensures
            final(self)@ == advance(old(self)@, false),
            old(self)@ matches SetupStage::Pending(step) ==> error == Some(step.failure(message)),
            !(old(self)@ is Pending) ==> error.is_none(),
    {
        match self.stage {
            SetupStage::Pending(step) => {
                let error = step.fail(message);
                self.stage = SetupStage::Failed(error.class());
                Some(error)
            },
            _ => None,
        }
    }
}

/// After `n` successful steps from the start, the step at position `n` is
/// pending, or the setup is ready when all nine are done.
pub proof fn lemma_steps_in_order(outcomes: Seq<bool>)
    requires
        forall|i: int| 0 <= i < outcomes.len() ==> outcomes[i],
    ensures
        outcomes.len() < SETUP_STEPS ==> (after_steps(initial_stage(), outcomes) matches SetupStage::Pending(
            step,
        ) && step.index() == outcomes.len()),
        outcomes.len() >= SETUP_STEPS ==> after_steps(initial_stage(), outcomes) == SetupStage::Ready,
    decreases outcomes.len(),
{
    if outcomes.len() > 0 {
        lemma_steps_in_order(outcomes.drop_last());
    }
}

/// A setup that has failed or is ready stays so, whatever is reported after.
pub proof fn lemma_setup_ends(stage: SetupStage, outcomes: Seq<bool>)
    requires
        !(stage is Pending),
    ensures
        after_steps(stage, outcomes) == stage,
    decreases outcomes.len(),
{
    if outcomes.len() > 0 {
        lemma_setup_ends(stage, outcomes.drop_last());
    }
}

/// The first failure decides: when step `k` is the first to fail, the setup ends
/// as failed in the class of the step at position `k`, whatever is reported
/// after. So a fragment shader that does not compile ends the setup in the
/// compilation class, and a missing adapter or device in the environment's.
pub proof fn lemma_first_failure_decides(outcomes: Seq<bool>, k: int)
    requires
        0 <= k < outcomes.len(),
        k < SETUP_STEPS,
        !outcomes[k],
        forall|i: int| 0 <= i < k ==> outcomes[i],
    ensures
        after_steps(initial_stage(), outcomes.take(k)) matches SetupStage::Pending(step)
            && step.index() == k && after_steps(initial_stage(), outcomes) == SetupStage::Failed(
            step.failure_class(),
        ),
    decreases outcomes.len(),
{
    lemma_steps_in_order(outcomes.take(k));
    let before = outcomes.drop_last();
    if k == outcomes.len() - 1 {
        assert(before =~= outcomes.take(k));
    } else {
        assert(before.take(k) =~= outcomes.take(k));
        lemma_first_failure_decides(before, k);
    }
}

/// The setup is ready exactly after nine successes in a row from the start.
pub proof fn lemma_ready_needs_every_step(outcomes: Seq<bool>)
    ensures
        after_steps(initial_stage(), outcomes) == SetupStage::Ready <==> (outcomes.len()
            >= SETUP_STEPS && forall|i: int| 0 <= i < SETUP_STEPS ==> outcomes[i]),
{
    if outcomes.len() >= SETUP_STEPS && forall|i: int| 0 <= i < SETUP_STEPS ==> outcomes[i] {
        let first = outcomes.take(SETUP_STEPS as int);
        lemma_steps_in_order(first);
        lemma_stage_continues(initial_stage(), outcomes, SETUP_STEPS as int);
        lemma_setup_ends(SetupStage::Ready, outcomes.skip(SETUP_STEPS as int));
    } else if exists|k: int| 0 <= k < outcomes.len() && k < SETUP_STEPS && !outcomes[k] {
        let k = choose|k: int|
            0 <= k < outcomes.len() && k < SETUP_STEPS && !outcomes[k] && forall|i: int|
                0 <= i < k ==> outcomes[i];
        lemma_first_failure_decides(outcomes, k);
    } else {
        lemma_steps_in_order(outcomes);
    }
}

/// A run of steps can be split anywhere: the stage after all of them is the
/// stage after the rest, taken from the stage after the first `n`.
pub proof fn lemma_stage_continues(stage: SetupStage, outcomes: Seq<bool>, n: int)
    requires
        0 <= n <= outcomes.len(),
    ensures
        after_steps(stage, outcomes) == after_steps(
            after_steps(stage, outcomes.take(n)),
            outcomes.skip(n),
        ),
    decreases outcomes.len(),
{
    if n == outcomes.len() {
        assert(outcomes.take(n) =~= outcomes);
        assert(outcomes.skip(n) =~= Seq::<bool>::empty());
    } else {
        let before = outcomes.drop_last();
        lemma_stage_continues(stage, before, n);
        assert(before.take(n) =~= outcomes.take(n));
        assert(outcomes.skip(n).drop_last() =~= before.skip(n));
        assert(outcomes.skip(n).last() == outcomes.last());
    }
}

} // verus!
