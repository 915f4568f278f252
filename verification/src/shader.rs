//! The order in which a shader program is built, and where a build stops.

use vstd::prelude::*;

verus! {

/// One stage of building a program from a vertex and a fragment shader.
#[derive(Clone, Copy, Debug, PartialEq, Eq)]
pub enum BuildStage {
    /// Compiling the vertex shader.
    VertexShader,
    /// Compiling the fragment shader.
    FragmentShader,
    /// Linking the two into the program.
    Link,
}

/// What follows a stage.
#[derive(Clone, Copy, Debug, PartialEq, Eq)]
pub enum BuildStep {
    /// Go on with this stage.
    Run(BuildStage),
    /// Give up, and report the log of this stage.
    Abort(BuildStage),
    /// The program is built.
    Finish,
}

/// The stage after `stage`, if there is one.
pub open spec fn following(stage: BuildStage) -> Option<BuildStage> {
    match stage {
        BuildStage::VertexShader => Some(BuildStage::FragmentShader),
        BuildStage::FragmentShader => Some(BuildStage::Link),
        BuildStage::Link => None,
    }
}

/// What follows `stage`, given whether it succeeded: a failed stage ends the
/// build with its own log, a successful one leads to the next, and a
/// successful link completes the program.
pub open spec fn step_after(stage: BuildStage, succeeded: bool) -> BuildStep {
    if !succeeded {
        BuildStep::Abort(stage)
    } else {
        match following(stage) {
            Some(next) => BuildStep::Run(next),
            None => BuildStep::Finish,
        }
    }
}

/// How a build ends that starts at `stage`, where `succeeds` tells of each
/// stage whether it would succeed: `Finish`, or `Abort` with the stage that failed.
pub open spec fn outcome_from(stage: BuildStage, succeeds: spec_fn(BuildStage) -> bool) -> BuildStep
    decreases stages_left(stage),
{
    match step_after(stage, succeeds(stage)) {
        BuildStep::Run(next) => outcome_from(next, succeeds),
        last => last,
    }
}

/// Number of stages from `stage` to the end of a build.
pub open spec fn stages_left(stage: BuildStage) -> nat {
    match stage {
        BuildStage::VertexShader => 3,
        BuildStage::FragmentShader => 2,
        BuildStage::Link => 1,
    }
}

/// The stage with which every build begins.
pub fn first_stage() -> (stage: BuildStage)
    ensures
        stage == BuildStage::VertexShader,
{
    BuildStage::VertexShader
}

/// What follows `stage`, given whether it succeeded.
pub fn after_stage(stage: BuildStage, succeeded: bool) -> (step: BuildStep)
    ensures
        step == step_after(stage, succeeded),
{
    if !succeeded {
        return BuildStep::Abort(stage);
    }
    match stage {
        BuildStage::VertexShader => BuildStep::Run(BuildStage::FragmentShader),
        BuildStage::FragmentShader => BuildStep::Run(BuildStage::Link),
        BuildStage::Link => BuildStep::Finish,
    }
}

/// A build completes exactly when all three stages succeed, and otherwise
/// reports the first stage that failed; the stages after it are not run.
pub proof fn lemma_build_outcome(succeeds: spec_fn(BuildStage) -> bool)
    ensures
        outcome_from(BuildStage::VertexShader, succeeds) == if !succeeds(BuildStage::VertexShader) {
            BuildStep::Abort(BuildStage::VertexShader)
        } else if !succeeds(BuildStage::FragmentShader) {
            BuildStep::Abort(BuildStage::FragmentShader)
        } else if !succeeds(BuildStage::Link) {
            BuildStep::Abort(BuildStage::Link)
        } else {
            BuildStep::Finish
        },
{
    reveal_with_fuel(outcome_from, 4);
}

} // verus!
