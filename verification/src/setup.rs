//! Provisioning: the engine is fetched and unpacked into the local cache,
//! then the export templates are installed, unless they are there already.

use vstd::prelude::*;
use crate::layout::Place;
use crate::platform::HostOs;
use crate::protocol::{reply_to_step, Action, Failure, Outcome, Reply, Step};
use crate::release::Archive;

verus! {

/// How far provisioning has come. Each stage but the last two waits for the
/// outcome of the one action it asks for.
#[derive(Clone, Copy, Debug, PartialEq, Eq, Structural)]
pub enum SetupStage {
    ProbeBinDir,
    CreateBinDir,
    FetchEditor,
    OpenEditor,
    UnpackEditor,
    ProbeBinary,
    FixPermissions,
    Unquarantine,
    ProbeTemplates,
    FetchTemplates,
    OpenTemplates,
    ProbeScratch,
    ClearScratch,
    UnpackTemplates,
    CreateTemplatesHome,
    ProbeUnpacked,
    MoveTemplates,
    CreateVersionDir,
    CopyTemplates,
    RemoveScratch,
    /// The engine and the templates are in place.
    Finished,
    /// Provisioning was given up.
    Failed(Failure),
}

/// The permission bits the engine's executable gets: the owner may read,
/// write and run it, all others may read and run it.
pub const EXECUTABLE_MODE: u32 = 0o755;

/// Whether files on `host` carry permission bits.
pub open spec fn is_posix(host: HostOs) -> bool {
    host != HostOs::Windows
}

/// Whether `host` marks downloaded files as quarantined.
pub open spec fn has_quarantine(host: HostOs) -> bool {
    host == HostOs::MacOs
}

/// What provisioning asks for at `stage`.
pub open spec fn setup_request(stage: SetupStage) -> Step {
    match stage {
        SetupStage::ProbeBinDir => Step::Do(Action::Probe(Place::BinDir)),
        SetupStage::CreateBinDir => Step::Do(Action::CreateDir(Place::BinDir)),
        SetupStage::FetchEditor => Step::Do(Action::Fetch(Archive::Editor)),
        SetupStage::OpenEditor => Step::Do(Action::Open(Archive::Editor)),
        SetupStage::UnpackEditor => Step::Do(Action::Unpack(Archive::Editor, Place::BinDir)),
        SetupStage::ProbeBinary => Step::Do(Action::Probe(Place::EngineBinary)),
        SetupStage::FixPermissions => Step::Do(Action::MakeExecutable(Place::EngineBinary)),
        SetupStage::Unquarantine => Step::Do(Action::Unquarantine),
        SetupStage::ProbeTemplates => Step::Do(Action::Probe(Place::TemplatesVersion)),
        SetupStage::FetchTemplates => Step::Do(Action::Fetch(Archive::Templates)),
        SetupStage::OpenTemplates => Step::Do(Action::Open(Archive::Templates)),
        SetupStage::ProbeScratch => Step::Do(Action::Probe(Place::TemplatesScratch)),
        SetupStage::ClearScratch => Step::Do(Action::RemoveDirAll(Place::TemplatesScratch)),
        SetupStage::UnpackTemplates => Step::Do(
            Action::Unpack(Archive::Templates, Place::TemplatesScratch),
        ),
        SetupStage::CreateTemplatesHome => Step::Do(Action::CreateDirAll(Place::TemplatesHome)),
        SetupStage::ProbeUnpacked => Step::Do(Action::Probe(Place::TemplatesUnpacked)),
        SetupStage::MoveTemplates => Step::Do(
            Action::Rename(Place::TemplatesUnpacked, Place::TemplatesVersion),
        ),
        SetupStage::CreateVersionDir => Step::Do(Action::CreateDirAll(Place::TemplatesVersion)),
        SetupStage::CopyTemplates => Step::Do(
            Action::CopyContents(Place::TemplatesUnpacked, Place::TemplatesVersion),
        ),
        SetupStage::RemoveScratch => Step::Do(Action::RemoveDirAll(Place::TemplatesScratch)),
        SetupStage::Finished => Step::Finish,
        SetupStage::Failed(failure) => Step::Fail(failure),
    }
}

/// The stage that follows once the engine's executable was found in the
/// cache: its permissions are set where the host has any.
pub open spec fn setup_after_binary(host: HostOs) -> SetupStage {
    if is_posix(host) {
        SetupStage::FixPermissions
    } else {
        SetupStage::ProbeTemplates
    }
}

/// The stage that follows once the permissions are set: the quarantine
/// mark is taken off where the host has one.
pub open spec fn setup_after_permissions(host: HostOs) -> SetupStage {
    if has_quarantine(host) {
        SetupStage::Unquarantine
    } else {
        SetupStage::ProbeTemplates
    }
}

/// The stage that follows `stage` on `host` when `reply` answers its request.
///
/// Work that could not be carried out ends provisioning, with two
/// exceptions: the quarantine mark is taken off as far as that goes, and
/// templates that cannot be moved are copied. Templates that are present
/// end it too, with nothing fetched for them.
pub open spec fn setup_follow(host: HostOs, stage: SetupStage, reply: Reply) -> SetupStage {
    match stage {
        SetupStage::ProbeBinDir => match reply {
            Reply::Yes => SetupStage::FetchEditor,
            Reply::No => SetupStage::CreateBinDir,
            Reply::Broken => SetupStage::Failed(Failure::Outside),
        },
        SetupStage::ProbeBinary => match reply {
            Reply::Yes => setup_after_binary(host),
            Reply::No => SetupStage::Failed(Failure::BinaryNotExtracted),
            Reply::Broken => SetupStage::Failed(Failure::Outside),
        },
        SetupStage::Unquarantine => SetupStage::ProbeTemplates,
        SetupStage::ProbeTemplates => match reply {
            Reply::Yes => SetupStage::Finished,
            Reply::No => SetupStage::FetchTemplates,
            Reply::Broken => SetupStage::Failed(Failure::Outside),
        },
        SetupStage::ProbeScratch => match reply {
            Reply::Yes => SetupStage::ClearScratch,
            Reply::No => SetupStage::UnpackTemplates,
            Reply::Broken => SetupStage::Failed(Failure::Outside),
        },
        SetupStage::ProbeUnpacked => match reply {
            Reply::Yes => SetupStage::MoveTemplates,
            Reply::No => SetupStage::Failed(Failure::TemplatesFolderMissing),
            Reply::Broken => SetupStage::Failed(Failure::Outside),
        },
        SetupStage::MoveTemplates => match reply {
            Reply::Yes => SetupStage::RemoveScratch,
            _ => SetupStage::CreateVersionDir,
        },
        SetupStage::Finished => SetupStage::Finished,
        SetupStage::Failed(failure) => SetupStage::Failed(failure),
        _ => match reply {
            Reply::Yes => match stage {
                SetupStage::CreateBinDir => SetupStage::FetchEditor,
                SetupStage::FetchEditor => SetupStage::OpenEditor,
                SetupStage::OpenEditor => SetupStage::UnpackEditor,
                SetupStage::UnpackEditor => SetupStage::ProbeBinary,
                SetupStage::FixPermissions => setup_after_permissions(host),
                SetupStage::FetchTemplates => SetupStage::OpenTemplates,
                SetupStage::OpenTemplates => SetupStage::ProbeScratch,
                SetupStage::ClearScratch => SetupStage::UnpackTemplates,
                SetupStage::UnpackTemplates => SetupStage::CreateTemplatesHome,
                SetupStage::CreateTemplatesHome => SetupStage::ProbeUnpacked,
                SetupStage::CreateVersionDir => SetupStage::CopyTemplates,
                SetupStage::CopyTemplates => SetupStage::RemoveScratch,
                _ => SetupStage::Finished,
            },
            _ => SetupStage::Failed(Failure::Outside),
        },
    }
}

/// The stage that follows `stage` on `host` after `outcome`.
pub open spec fn setup_next(host: HostOs, stage: SetupStage, outcome: Outcome) -> SetupStage {
    setup_follow(host, stage, reply_to_step(setup_request(stage), outcome))
}

impl SetupStage {
    /// The stage provisioning starts in.
    pub fn first() -> (stage: SetupStage)
        ensures
            stage == SetupStage::ProbeBinDir,
    {
        SetupStage::ProbeBinDir
    }

    /// What provisioning asks for at this stage.
    pub fn request(self) -> (step: Step)
        ensures
            step == setup_request(self),
    {
        match self {
            SetupStage::ProbeBinDir => Step::Do(Action::Probe(Place::BinDir)),
            SetupStage::CreateBinDir => Step::Do(Action::CreateDir(Place::BinDir)),
            SetupStage::FetchEditor => Step::Do(Action::Fetch(Archive::Editor)),
            SetupStage::OpenEditor => Step::Do(Action::Open(Archive::Editor)),
            SetupStage::UnpackEditor => Step::Do(Action::Unpack(Archive::Editor, Place::BinDir)),
            SetupStage::ProbeBinary => Step::Do(Action::Probe(Place::EngineBinary)),
            SetupStage::FixPermissions => Step::Do(Action::MakeExecutable(Place::EngineBinary)),
            SetupStage::Unquarantine => Step::Do(Action::Unquarantine),
            SetupStage::ProbeTemplates => Step::Do(Action::Probe(Place::TemplatesVersion)),
            SetupStage::FetchTemplates => Step::Do(Action::Fetch(Archive::Templates)),
            SetupStage::OpenTemplates => Step::Do(Action::Open(Archive::Templates)),
            SetupStage::ProbeScratch => Step::Do(Action::Probe(Place::TemplatesScratch)),
            SetupStage::ClearScratch => Step::Do(Action::RemoveDirAll(Place::TemplatesScratch)),
            SetupStage::UnpackTemplates => Step::Do(
                Action::Unpack(Archive::Templates, Place::TemplatesScratch),
            ),
            SetupStage::CreateTemplatesHome => Step::Do(
                Action::CreateDirAll(Place::TemplatesHome),
            ),
            SetupStage::ProbeUnpacked => Step::Do(Action::Probe(Place::TemplatesUnpacked)),
            SetupStage::MoveTemplates => Step::Do(
                Action::Rename(Place::TemplatesUnpacked, Place::TemplatesVersion),
            ),
            SetupStage::CreateVersionDir => Step::Do(
                Action::CreateDirAll(Place::TemplatesVersion),
            ),
            SetupStage::CopyTemplates => Step::Do(
                Action::CopyContents(Place::TemplatesUnpacked, Place::TemplatesVersion),
            ),
            SetupStage::RemoveScratch => Step::Do(Action::RemoveDirAll(Place::TemplatesScratch)),
            SetupStage::Finished => Step::Finish,
            SetupStage::Failed(failure) => Step::Fail(failure),
        }
    }
}

/// One step of provisioning on `host`: takes the outcome of what `stage`
/// asked for, and gives the stage that follows and what that one asks for.
pub fn setup_godot(host: HostOs, stage: SetupStage, outcome: Outcome) -> (next: (SetupStage, Step))
    ensures
        next.0 == setup_next(host, stage, outcome),
        next.1 == setup_request(next.0),
{
    let reply = stage.request().reply(outcome);
    let posix = match host {
        HostOs::Windows => false,
        _ => true,
    };
    let quarantine = match host {
        HostOs::MacOs => true,
        _ => false,
    };
    let stopped = SetupStage::Failed(Failure::Outside);
    let follow = match stage {
        SetupStage::Finished | SetupStage::Failed(_) => stage,
        SetupStage::Unquarantine => SetupStage::ProbeTemplates,
        SetupStage::MoveTemplates => match reply {
            Reply::Yes => SetupStage::RemoveScratch,
            _ => SetupStage::CreateVersionDir,
        },
        _ => match reply {
            Reply::Broken => stopped,
            Reply::No => match stage {
                SetupStage::ProbeBinDir => SetupStage::CreateBinDir,
                SetupStage::ProbeBinary => SetupStage::Failed(Failure::BinaryNotExtracted),
                SetupStage::ProbeTemplates => SetupStage::FetchTemplates,
                SetupStage::ProbeScratch => SetupStage::UnpackTemplates,
                SetupStage::ProbeUnpacked => SetupStage::Failed(Failure::TemplatesFolderMissing),
                _ => stopped,
            },
            Reply::Yes => match stage {
                SetupStage::ProbeBinDir | SetupStage::CreateBinDir => SetupStage::FetchEditor,
                SetupStage::FetchEditor => SetupStage::OpenEditor,
                SetupStage::OpenEditor => SetupStage::UnpackEditor,
                SetupStage::UnpackEditor => SetupStage::ProbeBinary,
                SetupStage::ProbeBinary => if posix {
                    SetupStage::FixPermissions
                } else {
                    SetupStage::ProbeTemplates
                },
                SetupStage::FixPermissions => if quarantine {
                    SetupStage::Unquarantine
                } else {
                    SetupStage::ProbeTemplates
                },
                SetupStage::ProbeTemplates => SetupStage::Finished,
                SetupStage::FetchTemplates => SetupStage::OpenTemplates,
                SetupStage::OpenTemplates => SetupStage::ProbeScratch,
                SetupStage::ProbeScratch => SetupStage::ClearScratch,
                SetupStage::ClearScratch => SetupStage::UnpackTemplates,
                SetupStage::UnpackTemplates => SetupStage::CreateTemplatesHome,
                SetupStage::CreateTemplatesHome => SetupStage::ProbeUnpacked,
                SetupStage::ProbeUnpacked => SetupStage::MoveTemplates,
                SetupStage::CreateVersionDir => SetupStage::CopyTemplates,
                SetupStage::CopyTemplates => SetupStage::RemoveScratch,
                _ => SetupStage::Finished,
            },
        },
    };
    (follow, follow.request())
}

} // verus!
