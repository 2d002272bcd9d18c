//! Packaging: the project gets an export configuration where it has none,
//! and the engine exports it for the host's platform.

use vstd::prelude::*;
use crate::documents::Document;
use crate::layout::Place;
use crate::protocol::{reply_to_step, Action, Failure, Outcome, Reply, Step};

verus! {

/// How far the export configuration has come.
#[derive(Clone, Copy, Debug, PartialEq, Eq, Structural)]
pub enum PresetsStage {
    ProbePresets,
    WritePresets,
    /// The project has an export configuration.
    Finished,
    /// The configuration could not be written.
    Failed(Failure),
}

/// How far an export has come.
#[derive(Clone, Copy, Debug, PartialEq, Eq, Structural)]
pub enum ExportStage {
    ProbeBuilds,
    CreateBuilds,
    CreateExportDir,
    ResolveEngine,
    ResolveGameDir,
    RunExport,
    /// The exporter ran and reported success.
    Finished,
    /// The export was given up.
    Failed(Failure),
}

/// What the export configuration asks for at `stage`.
pub open spec fn presets_request(stage: PresetsStage) -> Step {
    match stage {
        PresetsStage::ProbePresets => Step::Do(Action::Probe(Place::PresetsFile)),
        PresetsStage::WritePresets => Step::Do(Action::Write(Document::ExportPresets)),
        PresetsStage::Finished => Step::Finish,
        PresetsStage::Failed(failure) => Step::Fail(failure),
    }
}

/// The stage that follows `stage` when `reply` answers its request. A
/// configuration that is there is left as it is.
pub open spec fn presets_follow(stage: PresetsStage, reply: Reply) -> PresetsStage {
    match stage {
        PresetsStage::ProbePresets => match reply {
            Reply::Yes => PresetsStage::Finished,
            Reply::No => PresetsStage::WritePresets,
            Reply::Broken => PresetsStage::Failed(Failure::Outside),
        },
        PresetsStage::WritePresets => match reply {
            Reply::Yes => PresetsStage::Finished,
            _ => PresetsStage::Failed(Failure::Outside),
        },
        PresetsStage::Finished => PresetsStage::Finished,
        PresetsStage::Failed(failure) => PresetsStage::Failed(failure),
    }
}

/// The stage that follows `stage` after `outcome`.
pub open spec fn presets_next(stage: PresetsStage, outcome: Outcome) -> PresetsStage {
    presets_follow(stage, reply_to_step(presets_request(stage), outcome))
}

/// What an export asks for at `stage`.
pub open spec fn export_request(stage: ExportStage) -> Step {
    match stage {
        ExportStage::ProbeBuilds => Step::Do(Action::Probe(Place::BuildsDir)),
        ExportStage::CreateBuilds => Step::Do(Action::CreateDir(Place::BuildsDir)),
        ExportStage::CreateExportDir => Step::Do(Action::CreateDirAll(Place::ExportDir)),
        ExportStage::ResolveEngine => Step::Do(Action::Resolve(Place::EngineBinary)),
        ExportStage::ResolveGameDir => Step::Do(Action::Resolve(Place::GameDir)),
        ExportStage::RunExport => Step::Do(Action::Export),
        ExportStage::Finished => Step::Finish,
        ExportStage::Failed(failure) => Step::Fail(failure),
    }
}

/// The stage that follows `stage` when `reply` answers its request. An
/// exporter that reports failure fails the export.
pub open spec fn export_follow(stage: ExportStage, reply: Reply) -> ExportStage {
    match stage {
        ExportStage::ProbeBuilds => match reply {
            Reply::Yes => ExportStage::CreateExportDir,
            Reply::No => ExportStage::CreateBuilds,
            Reply::Broken => ExportStage::Failed(Failure::Outside),
        },
        ExportStage::CreateBuilds => match reply {
            Reply::Yes => ExportStage::CreateExportDir,
            _ => ExportStage::Failed(Failure::Outside),
        },
        ExportStage::CreateExportDir => match reply {
            Reply::Yes => ExportStage::ResolveEngine,
            _ => ExportStage::Failed(Failure::Outside),
        },
        ExportStage::ResolveEngine => match reply {
            Reply::Yes => ExportStage::ResolveGameDir,
            _ => ExportStage::Failed(Failure::Outside),
        },
        ExportStage::ResolveGameDir => match reply {
            Reply::Yes => ExportStage::RunExport,
            _ => ExportStage::Failed(Failure::Outside),
        },
        ExportStage::RunExport => match reply {
            Reply::Yes => ExportStage::Finished,
            Reply::No => ExportStage::Failed(Failure::ExportFailed),
            Reply::Broken => ExportStage::Failed(Failure::Outside),
        },
        ExportStage::Finished => ExportStage::Finished,
        ExportStage::Failed(failure) => ExportStage::Failed(failure),
    }
}

/// The stage that follows `stage` after `outcome`.
pub open spec fn export_next(stage: ExportStage, outcome: Outcome) -> ExportStage {
    export_follow(stage, reply_to_step(export_request(stage), outcome))
}

impl PresetsStage {
    /// The stage the export configuration starts in.
    pub fn first() -> (stage: PresetsStage)
        ensures
            stage == PresetsStage::ProbePresets,
    {
        PresetsStage::ProbePresets
    }

    /// What the export configuration asks for at this stage.
    pub fn request(self) -> (step: Step)
        ensures
            step == presets_request(self),
    {
        match self {
            PresetsStage::ProbePresets => Step::Do(Action::Probe(Place::PresetsFile)),
            PresetsStage::WritePresets => Step::Do(Action::Write(Document::ExportPresets)),
            PresetsStage::Finished => Step::Finish,
            PresetsStage::Failed(failure) => Step::Fail(failure),
        }
    }
}

impl ExportStage {
    /// The stage an export starts in.
    pub fn first() -> (stage: ExportStage)
        ensures
            stage == ExportStage::ProbeBuilds,
    {
        ExportStage::ProbeBuilds
    }

    /// What an export asks for at this stage.
    pub fn request(self) -> (step: Step)
        ensures
            step == export_request(self),
    {
        match self {
            ExportStage::ProbeBuilds => Step::Do(Action::Probe(Place::BuildsDir)),
            ExportStage::CreateBuilds => Step::Do(Action::CreateDir(Place::BuildsDir)),
            ExportStage::CreateExportDir => Step::Do(Action::CreateDirAll(Place::ExportDir)),
            ExportStage::ResolveEngine => Step::Do(Action::Resolve(Place::EngineBinary)),
            ExportStage::ResolveGameDir => Step::Do(Action::Resolve(Place::GameDir)),
            ExportStage::RunExport => Step::Do(Action::Export),
            ExportStage::Finished => Step::Finish,
            ExportStage::Failed(failure) => Step::Fail(failure),
        }
    }
}

/// One step of the export configuration: takes the outcome of what `stage`
/// asked for, and gives the stage that follows and what that one asks for.
pub fn ensure_export_presets(stage: PresetsStage, outcome: Outcome) -> (next: (PresetsStage, Step))
    ensures
        next.0 == presets_next(stage, outcome),
        next.1 == presets_request(next.0),
{
    let reply = stage.request().reply(outcome);
    let follow = match (stage, reply) {
        (PresetsStage::Finished, _) | (PresetsStage::Failed(_), _) => stage,
        (_, Reply::Yes) => PresetsStage::Finished,
        (PresetsStage::ProbePresets, Reply::No) => PresetsStage::WritePresets,
        _ => PresetsStage::Failed(Failure::Outside),
    };
    (follow, follow.request())
}

/// One step of an export: takes the outcome of what `stage` asked for, and
/// gives the stage that follows and what that one asks for.
pub fn package_game(stage: ExportStage, outcome: Outcome) -> (next: (ExportStage, Step))
    ensures
        next.0 == export_next(stage, outcome),
        next.1 == export_request(next.0),
{
    let reply = stage.request().reply(outcome);
    let follow = match stage {
        ExportStage::Finished | ExportStage::Failed(_) => stage,
        _ => match reply {
            Reply::Broken => ExportStage::Failed(Failure::Outside),
            Reply::No => match stage {
                ExportStage::ProbeBuilds => ExportStage::CreateBuilds,
                ExportStage::RunExport => ExportStage::Failed(Failure::ExportFailed),
                _ => ExportStage::Failed(Failure::Outside),
            },
            Reply::Yes => match stage {
                ExportStage::ProbeBuilds | ExportStage::CreateBuilds => ExportStage::CreateExportDir,
                ExportStage::CreateExportDir => ExportStage::ResolveEngine,
                ExportStage::ResolveEngine => ExportStage::ResolveGameDir,
                ExportStage::ResolveGameDir => ExportStage::RunExport,
                _ => ExportStage::Finished,
            },
        },
    };
    (follow, follow.request())
}

} // verus!
