//! The stage machine that drives one run of the pipeline.
//!
//! A run walks a fixed one-way chain of stages: context bootstrap,
//! renderer binding, canvas creation, drawing, flush, capture, save. Every
//! transition happens exactly once. The stages that touch the outside —
//! the GPU, the image file — can fail; each failure is fatal and carries
//! the error of the stage it happened at. The unverified driver performs
//! the outside work of each stage and reports its outcome here; this
//! module decides what follows.

use vstd::prelude::*;

verus! {

/// Where a run stands. The chain is walked in declaration order and is
/// one-way: no stage is ever revisited.
#[derive(Clone, Copy, PartialEq, Eq, Structural, Debug)]
pub enum Stage {
    Uninitialized,
    ContextReady,
    RendererReady,
    CanvasReady,
    Drawn,
    Flushed,
    Captured,
    Saved,
}

/// The fatal error of each fallible stage. Every one aborts the run:
/// there is no retry and no degraded mode.
#[derive(Clone, Copy, PartialEq, Eq, Structural, Debug)]
pub enum FatalError {
    ContextCreation,
    RendererInit,
    CanvasCreation,
    ScreenshotCapture,
    ImageSave,
}

/// The stage a successful transition reaches.
pub open spec fn next_stage(s: Stage) -> Stage {
    match s {
        Stage::Uninitialized => Stage::ContextReady,
        Stage::ContextReady => Stage::RendererReady,
        Stage::RendererReady => Stage::CanvasReady,
        Stage::CanvasReady => Stage::Drawn,
        Stage::Drawn => Stage::Flushed,
        Stage::Flushed => Stage::Captured,
        Stage::Captured => Stage::Saved,
        Stage::Saved => Stage::Saved,
    }
}

/// The error a stage's outside work aborts with when it fails. Drawing
/// and flushing only queue and execute commands and report no failure.
pub open spec fn failure_of(s: Stage) -> Option<FatalError> {
    match s {
        Stage::Uninitialized => Some(FatalError::ContextCreation),
        Stage::ContextReady => Some(FatalError::RendererInit),
        Stage::RendererReady => Some(FatalError::CanvasCreation),
        Stage::CanvasReady => None,
        Stage::Drawn => None,
        Stage::Flushed => Some(FatalError::ScreenshotCapture),
        Stage::Captured => Some(FatalError::ImageSave),
        Stage::Saved => None,
    }
}

/// One transition: on success the next stage, on failure the stage's
/// fatal error. A stage that cannot fail always advances.
pub open spec fn step(s: Stage, ok: bool) -> Result<Stage, FatalError> {
    if ok {
        Ok(next_stage(s))
    } else {
        match failure_of(s) {
            Some(e) => Err(e),
            None => Ok(next_stage(s)),
        }
    }
}

/// A whole run from `s`: fold the reported outcomes over the chain, and
/// stop at the first failure.
pub open spec fn run(s: Stage, outcomes: Seq<bool>) -> Result<Stage, FatalError>
    decreases outcomes.len(),
{
    if outcomes.len() == 0 {
        Ok(s)
    } else {
        match step(s, outcomes[0]) {
            Ok(s2) => run(s2, outcomes.drop_first()),
            Err(e) => Err(e),
        }
    }
}

/// Advance the run by one stage, given whether the stage's outside work
/// succeeded. A stage whose work cannot fail must report success.
pub fn advance(stage: Stage, ok: bool) -> (r: Result<Stage, FatalError>)
    requires
        stage != Stage::Saved,
        !ok ==> failure_of(stage) is Some,
    ensures
        r == step(stage, ok),
        r is Ok <==> ok,
{
    if ok {
        let next = match stage {
            Stage::Uninitialized => Stage::ContextReady,
            Stage::ContextReady => Stage::RendererReady,
            Stage::RendererReady => Stage::CanvasReady,
            Stage::CanvasReady => Stage::Drawn,
            Stage::Drawn => Stage::Flushed,
            Stage::Flushed => Stage::Captured,
            Stage::Captured => Stage::Saved,
            Stage::Saved => Stage::Saved,
        };
        Ok(next)
    } else {
        let err = match stage {
            Stage::Uninitialized => FatalError::ContextCreation,
            Stage::ContextReady => FatalError::RendererInit,
            Stage::RendererReady => FatalError::CanvasCreation,
            Stage::Flushed => FatalError::ScreenshotCapture,
            _ => FatalError::ImageSave,
        };
        Err(err)
    }
}

/// When context creation fails at the start, the run aborts at once with
/// that error: no canvas is created and no save is ever reached.
pub proof fn lemma_context_failure_aborts(outcomes: Seq<bool>)
    requires
        outcomes.len() > 0,
        !outcomes[0],
    ensures
        run(Stage::Uninitialized, outcomes) == Err::<Stage, FatalError>(
            FatalError::ContextCreation,
        ),
{
}

} // verus!
