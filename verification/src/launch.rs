//! Launch: the engine is started on the project, which gets a description
//! first where it has none.

use vstd::prelude::*;
use crate::documents::Document;
use crate::layout::Place;
use crate::protocol::{reply_to_step, Action, Failure, Outcome, Reply, Step};

verus! {

/// How far a launch has come. Each stage but the last two waits for the
/// outcome of the one action it asks for.
#[derive(Clone, Copy, Debug, PartialEq, Eq, Structural)]
pub enum LaunchStage {
    ProbeEngine,
    ProbeGameDir,
    CreateGameDir,
    ProbeProject,
    WriteProject,
    ResolveEngine,
    ResolveGameDir,
    Spawn,
    /// The engine ran and came back.
    Finished,
    /// The launch was given up.
    Failed(Failure),
}

/// What a launch asks for at `stage`, into the editor or not.
pub open spec fn launch_request(editor: bool, stage: LaunchStage) -> Step {
    match stage {
        LaunchStage::ProbeEngine => Step::Do(Action::Probe(Place::EngineBinary)),
        LaunchStage::ProbeGameDir => Step::Do(Action::Probe(Place::GameDir)),
        LaunchStage::CreateGameDir => Step::Do(Action::CreateDirAll(Place::GameDir)),
        LaunchStage::ProbeProject => Step::Do(Action::Probe(Place::ProjectFile)),
        LaunchStage::WriteProject => Step::Do(Action::Write(Document::Project)),
        LaunchStage::ResolveEngine => Step::Do(Action::Resolve(Place::EngineBinary)),
        LaunchStage::ResolveGameDir => Step::Do(Action::Resolve(Place::GameDir)),
        LaunchStage::Spawn => Step::Do(Action::Launch { editor }),
        LaunchStage::Finished => Step::Finish,
        LaunchStage::Failed(failure) => Step::Fail(failure),
    }
}

/// The stage that follows `stage` when `reply` answers its request.
///
/// A missing engine ends the launch before anything is created. A project
/// description that is there is left as it is. Once the engine ran, the
/// launch is finished, whatever the engine reported.
pub open spec fn launch_follow(stage: LaunchStage, reply: Reply) -> LaunchStage {
    match stage {
        LaunchStage::ProbeEngine => match reply {
            Reply::Yes => LaunchStage::ProbeGameDir,
            Reply::No => LaunchStage::Failed(Failure::EngineMissing),
            Reply::Broken => LaunchStage::Failed(Failure::Outside),
        },
        LaunchStage::ProbeGameDir => match reply {
            Reply::Yes => LaunchStage::ProbeProject,
            Reply::No => LaunchStage::CreateGameDir,
            Reply::Broken => LaunchStage::Failed(Failure::Outside),
        },
        LaunchStage::CreateGameDir => match reply {
            Reply::Yes => LaunchStage::ProbeProject,
            _ => LaunchStage::Failed(Failure::Outside),
        },
        LaunchStage::ProbeProject => match reply {
            Reply::Yes => LaunchStage::ResolveEngine,
            Reply::No => LaunchStage::WriteProject,
            Reply::Broken => LaunchStage::Failed(Failure::Outside),
        },
        LaunchStage::WriteProject => match reply {
            Reply::Yes => LaunchStage::ResolveEngine,
            _ => LaunchStage::Failed(Failure::Outside),
        },
        LaunchStage::ResolveEngine => match reply {
            Reply::Yes => LaunchStage::ResolveGameDir,
            _ => LaunchStage::Failed(Failure::EngineUnresolved),
        },
        LaunchStage::ResolveGameDir => match reply {
            Reply::Yes => LaunchStage::Spawn,
            _ => LaunchStage::Failed(Failure::Outside),
        },
        LaunchStage::Spawn => match reply {
            Reply::Yes | Reply::No => LaunchStage::Finished,
            Reply::Broken => LaunchStage::Failed(Failure::LaunchFailed),
        },
        LaunchStage::Finished => LaunchStage::Finished,
        LaunchStage::Failed(failure) => LaunchStage::Failed(failure),
    }
}

/// The stage that follows `stage` after `outcome`.
pub open spec fn launch_next(editor: bool, stage: LaunchStage, outcome: Outcome) -> LaunchStage {
    launch_follow(stage, reply_to_step(launch_request(editor, stage), outcome))
}

impl LaunchStage {
    /// The stage a launch starts in.
    pub fn first() -> (stage: LaunchStage)
        ensures
            stage == LaunchStage::ProbeEngine,
    {
        LaunchStage::ProbeEngine
    }

    /// What a launch asks for at this stage.
    pub fn request(self, editor: bool) -> (step: Step)
        ensures
            step == launch_request(editor, self),
    {
        match self {
            LaunchStage::ProbeEngine => Step::Do(Action::Probe(Place::EngineBinary)),
            LaunchStage::ProbeGameDir => Step::Do(Action::Probe(Place::GameDir)),
            LaunchStage::CreateGameDir => Step::Do(Action::CreateDirAll(Place::GameDir)),
            LaunchStage::ProbeProject => Step::Do(Action::Probe(Place::ProjectFile)),
            LaunchStage::WriteProject => Step::Do(Action::Write(Document::Project)),
            LaunchStage::ResolveEngine => Step::Do(Action::Resolve(Place::EngineBinary)),
            LaunchStage::ResolveGameDir => Step::Do(Action::Resolve(Place::GameDir)),
            LaunchStage::Spawn => Step::Do(Action::Launch { editor }),
            LaunchStage::Finished => Step::Finish,
            LaunchStage::Failed(failure) => Step::Fail(failure),
        }
    }
}

/// One step of a launch: takes the outcome of what `stage` asked for, and
/// gives the stage that follows and what that one asks for.
pub fn run_godot(editor: bool, stage: LaunchStage, outcome: Outcome) -> (next: (LaunchStage, Step))
    ensures
        next.0 == launch_next(editor, stage, outcome),
        next.1 == launch_request(editor, next.0),
{
    let reply = stage.request(editor).reply(outcome);
    let follow = match stage {
        LaunchStage::Finished | LaunchStage::Failed(_) => stage,
        LaunchStage::Spawn => match reply {
            Reply::Broken => LaunchStage::Failed(Failure::LaunchFailed),
            _ => LaunchStage::Finished,
        },
        LaunchStage::ResolveEngine => match reply {
            Reply::Yes => LaunchStage::ResolveGameDir,
            _ => LaunchStage::Failed(Failure::EngineUnresolved),
        },
        _ => match reply {
            Reply::Broken => LaunchStage::Failed(Failure::Outside),
            Reply::No => match stage {
                LaunchStage::ProbeEngine => LaunchStage::Failed(Failure::EngineMissing),
                LaunchStage::ProbeGameDir => LaunchStage::CreateGameDir,
                LaunchStage::ProbeProject => LaunchStage::WriteProject,
                _ => LaunchStage::Failed(Failure::Outside),
            },
            Reply::Yes => match stage {
                LaunchStage::ProbeEngine => LaunchStage::ProbeGameDir,
                LaunchStage::ProbeGameDir | LaunchStage::CreateGameDir => LaunchStage::ProbeProject,
                LaunchStage::ProbeProject | LaunchStage::WriteProject => LaunchStage::ResolveEngine,
                _ => LaunchStage::Spawn,
            },
        },
    };
    (follow, follow.request(editor))
}

} // verus!
