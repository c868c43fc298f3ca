//! The course of a frame.
//!
//! A frame starts idle. The targets are cleared and, in the forward flavor,
//! the light buffer is written; the objects of the scene are queued; the
//! queue is sorted; the objects are submitted; and the frame is idle again.
//! A step that fails ends the frame at once: nothing of the frame is
//! submitted after it.

use vstd::prelude::*;
use crate::{ColorValue, Single};

verus! {

/// The bit pattern of `1.0`.
pub const ONE: Single = 0x3f80_0000;

/// The flavor of a pipeline, fixed when it is made.
#[derive(Clone, Copy, Debug, PartialEq, Eq, Hash, Structural)]
pub enum Flavor {
    /// No lights, no blending.
    Flat,
    /// Lit, with blending.
    Forward,
}

/// How far a frame has come.
#[derive(Clone, Copy, Debug, PartialEq, Eq, Hash, Structural)]
pub enum Stage {
    /// No frame is under way.
    Idle,
    /// The targets are ready to be drawn to.
    Cleared,
    /// All objects of the scene are queued.
    Populated,
    /// The queue is in the order of submission.
    Sorted,
    /// All objects are submitted.
    Submitted,
}

/// How a step ended.
#[derive(Clone, Copy, Debug, PartialEq, Eq, Hash, Structural)]
pub enum Outcome {
    /// The step was done.
    Done,
    /// The step failed.
    Failed,
}

/// What the targets are cleared to.
#[derive(Clone, Copy, Debug, PartialEq)]
pub struct ClearData {
    /// The value of the color target.
    pub color: ColorValue,
    /// The value of the depth target.
    pub depth: Single,
    /// The value of the stencil target.
    pub stencil: u8,
}

/// What has to be done to leave a stage.
#[derive(Clone, Copy, Debug, PartialEq)]
pub enum Action {
    /// Write the light buffer, if asked to, then clear the targets, if there
    /// is anything to clear them to.
    Prepare {
        /// Whether the light buffer has to be written.
        update_lights: bool,
        /// What the targets are cleared to, if they are cleared.
        clear: Option<ClearData>,
    },
    /// Queue the objects of the scene.
    Populate,
    /// Put the queue into the order of submission.
    Sort,
    /// Submit the objects.
    Submit,
    /// Hand the result of the submission to the caller.
    Finish,
}

impl Stage {
    /// The stage that follows when the step was done.
    pub open spec fn next(self) -> Stage {
        match self {
            Stage::Idle => Stage::Cleared,
            Stage::Cleared => Stage::Populated,
            Stage::Populated => Stage::Sorted,
            Stage::Sorted => Stage::Submitted,
            Stage::Submitted => Stage::Idle,
        }
    }

    /// The stage that follows a step: the next one when it was done, and the
    /// idle one when it failed.
    pub open spec fn after(self, outcome: Outcome) -> Stage {
        match outcome {
            Outcome::Done => self.next(),
            Outcome::Failed => Stage::Idle,
        }
    }

    /// The number of steps of the frame that were done when it has come to
    /// this stage.
    pub open spec fn steps(self) -> nat {
        match self {
            Stage::Idle => 0,
            Stage::Cleared => 1,
            Stage::Populated => 2,
            Stage::Sorted => 3,
            Stage::Submitted => 4,
        }
    }

    /// Moves on after a step.
    pub fn advance(self, outcome: Outcome) -> (stage: Stage)
        ensures
            stage == self.after(outcome),
    {
        match outcome {
            Outcome::Failed => Stage::Idle,
            Outcome::Done => match self {
                Stage::Idle => Stage::Cleared,
                Stage::Cleared => Stage::Populated,
                Stage::Populated => Stage::Sorted,
                Stage::Sorted => Stage::Submitted,
                Stage::Submitted => Stage::Idle,
            },
        }
    }
}

/// What has to be done to leave a stage. The forward flavor writes its
/// lights before anything is queued. Targets are cleared to the background,
/// to the farthest depth and to a stencil of zero; without a background they
/// are not cleared.
pub open spec fn action_of(stage: Stage, flavor: Flavor, background: Option<ColorValue>) -> Action {
    match stage {
        Stage::Idle => Action::Prepare {
            update_lights: flavor == Flavor::Forward,
            clear: match background {
                Some(color) => Some(ClearData { color, depth: ONE, stencil: 0 }),
                None => None,
            },
        },
        Stage::Cleared => Action::Populate,
        Stage::Populated => Action::Sort,
        Stage::Sorted => Action::Submit,
        Stage::Submitted => Action::Finish,
    }
}

/// Tells what has to be done to leave a stage.
pub fn action(stage: Stage, flavor: Flavor, background: Option<ColorValue>) -> (step: Action)
    ensures
        step == action_of(stage, flavor, background),
{
    match stage {
        Stage::Idle => Action::Prepare {
            update_lights: match flavor {
                Flavor::Forward => true,
                Flavor::Flat => false,
            },
            clear: match background {
                Some(color) => Some(ClearData { color, depth: ONE, stencil: 0 }),
                None => None,
            },
        },
        Stage::Cleared => Action::Populate,
        Stage::Populated => Action::Sort,
        Stage::Sorted => Action::Submit,
        Stage::Submitted => Action::Finish,
    }
}

/// The stage that an idle pipeline has come to after the given steps.
pub open spec fn stage_after(outcomes: Seq<Outcome>) -> Stage
    decreases outcomes.len(),
{
    if outcomes.len() == 0 {
        Stage::Idle
    } else {
        stage_after(outcomes.drop_last()).after(outcomes.last())
    }
}

/// A frame of which no step fails passes through the stages in their order
/// and ends idle.
pub proof fn lemma_frame_runs_in_order()
    ensures
        stage_after(seq![Outcome::Done]) == Stage::Cleared,
        stage_after(seq![Outcome::Done, Outcome::Done]) == Stage::Populated,
        stage_after(seq![Outcome::Done, Outcome::Done, Outcome::Done]) == Stage::Sorted,
        stage_after(seq![Outcome::Done, Outcome::Done, Outcome::Done, Outcome::Done])
            == Stage::Submitted,
        stage_after(seq![Outcome::Done, Outcome::Done, Outcome::Done, Outcome::Done, Outcome::Done])
            == Stage::Idle,
{
    let d = Outcome::Done;
    assert(seq![d].drop_last() == Seq::<Outcome>::empty());
    assert(seq![d, d].drop_last() == seq![d]);
    assert(seq![d, d, d].drop_last() == seq![d, d]);
    assert(seq![d, d, d, d].drop_last() == seq![d, d, d]);
    assert(seq![d, d, d, d, d].drop_last() == seq![d, d, d, d]);
    assert(stage_after(Seq::<Outcome>::empty()) == Stage::Idle);
    assert(stage_after(seq![d]) == Stage::Cleared);
    assert(stage_after(seq![d, d]) == Stage::Populated);
    assert(stage_after(seq![d, d, d]) == Stage::Sorted);
    assert(stage_after(seq![d, d, d, d]) == Stage::Submitted);
}

/// Whatever happened before, a frame has come to a stage only by as many
/// steps as the stage counts, the last steps of all, and none of them failed.
/// So objects are submitted only after the targets were prepared and the
/// queue was filled and sorted without a failure, and a failure leaves
/// nothing of the frame to be submitted.
pub proof fn lemma_no_step_is_left_out(outcomes: Seq<Outcome>)
    ensures
        stage_after(outcomes).steps() <= outcomes.len(),
        forall|i: int|
            outcomes.len() - stage_after(outcomes).steps() <= i < outcomes.len() ==> #[trigger] outcomes[i]
                == Outcome::Done,
    decreases outcomes.len(),
{
    if outcomes.len() > 0 {
        lemma_no_step_is_left_out(outcomes.drop_last());
        let before = outcomes.drop_last();
        assert forall|i: int|
            outcomes.len() - stage_after(outcomes).steps() <= i < outcomes.len() implies #[trigger] outcomes[i]
            == Outcome::Done by {
            if i < outcomes.len() - 1 {
                assert(before[i] == outcomes[i]);
            }
        }
    }
}

/// Objects are submitted from one stage only, the sorted one, and lights
/// are written and targets cleared only where a frame starts.
pub proof fn lemma_actions_have_their_stage(stage: Stage, flavor: Flavor, background: Option<ColorValue>)
    ensures
        action_of(stage, flavor, background) is Submit <==> stage == Stage::Sorted,
        action_of(stage, flavor, background) is Prepare <==> stage == Stage::Idle,
        action_of(stage, flavor, background) is Populate <==> stage == Stage::Cleared,
        action_of(stage, flavor, background) is Sort <==> stage == Stage::Populated,
        action_of(stage, flavor, background) is Finish <==> stage == Stage::Submitted,
{
}

} // verus!
