//! Build and install: the native library is compiled, copied into the
//! project, and the descriptor is written anew.

use vstd::prelude::*;
use crate::documents::Document;
use crate::layout::Place;
use crate::platform::{can_build, HostOs};
use crate::protocol::{reply_to_step, Action, Failure, Outcome, Reply, Step};

verus! {

/// How far a build has come. Each stage but the last two waits for the
/// outcome of the one action it asks for.
#[derive(Clone, Copy, Debug, PartialEq, Eq, Structural)]
pub enum BuildStage {
    Compile,
    ProbeLibraryRoot,
    CreateLibraryRoot,
    ProbeLibraryDir,
    CreateLibraryDir,
    ProbeArtifact,
    CopyArtifact,
    WriteDescriptor,
    /// The library is installed and the descriptor written.
    Finished,
    /// The build was given up.
    Failed(Failure),
}

/// What a build asks for at `stage`, in release mode or not.
pub open spec fn build_request(release: bool, stage: BuildStage) -> Step {
    match stage {
        BuildStage::Compile => Step::Do(Action::Compile { release }),
        BuildStage::ProbeLibraryRoot => Step::Do(Action::Probe(Place::LibraryRoot)),
        BuildStage::CreateLibraryRoot => Step::Do(Action::CreateDirAll(Place::LibraryRoot)),
        BuildStage::ProbeLibraryDir => Step::Do(Action::Probe(Place::LibraryDir)),
        BuildStage::CreateLibraryDir => Step::Do(Action::CreateDirAll(Place::LibraryDir)),
        BuildStage::ProbeArtifact => Step::Do(Action::Probe(Place::Artifact { release })),
        BuildStage::CopyArtifact => Step::Do(
            Action::CopyFile(Place::Artifact { release }, Place::InstalledLibrary),
        ),
        BuildStage::WriteDescriptor => Step::Do(Action::Write(Document::Descriptor)),
        BuildStage::Finished => Step::Finish,
        BuildStage::Failed(failure) => Step::Fail(failure),
    }
}

/// The stage that follows once the directory for all libraries is there:
/// the host's own directory comes next, where the host has one.
pub open spec fn build_after_library_root(host: HostOs) -> BuildStage {
    if can_build(host) {
        BuildStage::ProbeLibraryDir
    } else {
        BuildStage::Failed(Failure::UnsupportedOs)
    }
}

/// The stage that follows `stage` on `host` when `reply` answers its request.
///
/// A compiler that reports failure ends the build before anything is
/// copied. A library that is missing after the compiler reported success
/// ends it before the descriptor is written. The descriptor is written
/// without a look at what is there.
pub open spec fn build_follow(
    host: HostOs,
    release: bool,
    stage: BuildStage,
    reply: Reply,
) -> BuildStage {
    match stage {
        BuildStage::Compile => match reply {
            Reply::Yes => BuildStage::ProbeLibraryRoot,
            Reply::No => BuildStage::Failed(Failure::BuildFailed),
            Reply::Broken => BuildStage::Failed(Failure::Outside),
        },
        BuildStage::ProbeLibraryRoot => match reply {
            Reply::Yes => build_after_library_root(host),
            Reply::No => BuildStage::CreateLibraryRoot,
            Reply::Broken => BuildStage::Failed(Failure::Outside),
        },
        BuildStage::CreateLibraryRoot => match reply {
            Reply::Yes => build_after_library_root(host),
            _ => BuildStage::Failed(Failure::Outside),
        },
        BuildStage::ProbeLibraryDir => match reply {
            Reply::Yes => BuildStage::ProbeArtifact,
            Reply::No => BuildStage::CreateLibraryDir,
            Reply::Broken => BuildStage::Failed(Failure::Outside),
        },
        BuildStage::CreateLibraryDir => match reply {
            Reply::Yes => BuildStage::ProbeArtifact,
            _ => BuildStage::Failed(Failure::Outside),
        },
        BuildStage::ProbeArtifact => match reply {
            Reply::Yes => BuildStage::CopyArtifact,
            Reply::No => BuildStage::Failed(Failure::ArtifactMissing { release }),
            Reply::Broken => BuildStage::Failed(Failure::Outside),
        },
        BuildStage::CopyArtifact => match reply {
            Reply::Yes => BuildStage::WriteDescriptor,
            _ => BuildStage::Failed(Failure::Outside),
        },
        BuildStage::WriteDescriptor => match reply {
            Reply::Yes => BuildStage::Finished,
            _ => BuildStage::Failed(Failure::Outside),
        },
        BuildStage::Finished => BuildStage::Finished,
        BuildStage::Failed(failure) => BuildStage::Failed(failure),
    }
}

/// The stage that follows `stage` on `host` after `outcome`.
pub open spec fn build_next(
    host: HostOs,
    release: bool,
    stage: BuildStage,
    outcome: Outcome,
) -> BuildStage {
    build_follow(host, release, stage, reply_to_step(build_request(release, stage), outcome))
}

impl BuildStage {
    /// The stage a build starts in.
    pub fn first() -> (stage: BuildStage)
        ensures
            stage == BuildStage::Compile,
    {
        BuildStage::Compile
    }

    /// What a build asks for at this stage.
    pub fn request(self, release: bool) -> (step: Step)
        ensures
            step == build_request(release, self),
    {
        let artifact = Place::Artifact { release };
        match self {
            BuildStage::Compile => Step::Do(Action::Compile { release }),
            BuildStage::ProbeLibraryRoot => Step::Do(Action::Probe(Place::LibraryRoot)),
            BuildStage::CreateLibraryRoot => Step::Do(Action::CreateDirAll(Place::LibraryRoot)),
            BuildStage::ProbeLibraryDir => Step::Do(Action::Probe(Place::LibraryDir)),
            BuildStage::CreateLibraryDir => Step::Do(Action::CreateDirAll(Place::LibraryDir)),
            BuildStage::ProbeArtifact => Step::Do(Action::Probe(artifact)),
            BuildStage::CopyArtifact => Step::Do(
                Action::CopyFile(artifact, Place::InstalledLibrary),
            ),
            BuildStage::WriteDescriptor => Step::Do(Action::Write(Document::Descriptor)),
            BuildStage::Finished => Step::Finish,
            BuildStage::Failed(failure) => Step::Fail(failure),
        }
    }
}

/// One step of a build on `host`: takes the outcome of what `stage` asked
/// for, and gives the stage that follows and what that one asks for.
pub fn build_and_install(host: HostOs, release: bool, stage: BuildStage, outcome: Outcome) -> (next:
    (BuildStage, Step))
    ensures
        next.0 == build_next(host, release, stage, outcome),
        next.1 == build_request(release, next.0),
{
    let reply = stage.request(release).reply(outcome);
    let host_dir = match host {
        HostOs::Other => BuildStage::Failed(Failure::UnsupportedOs),
        _ => BuildStage::ProbeLibraryDir,
    };
    let follow = match stage {
        BuildStage::Finished | BuildStage::Failed(_) => stage,
        _ => match reply {
            Reply::Broken => BuildStage::Failed(Failure::Outside),
            Reply::No => match stage {
                BuildStage::Compile => BuildStage::Failed(Failure::BuildFailed),
                BuildStage::ProbeLibraryRoot => BuildStage::CreateLibraryRoot,
                BuildStage::ProbeLibraryDir => BuildStage::CreateLibraryDir,
                BuildStage::ProbeArtifact => BuildStage::Failed(
                    Failure::ArtifactMissing { release },
                ),
                _ => BuildStage::Failed(Failure::Outside),
            },
            Reply::Yes => match stage {
                BuildStage::Compile => BuildStage::ProbeLibraryRoot,
                BuildStage::ProbeLibraryRoot | BuildStage::CreateLibraryRoot => host_dir,
                BuildStage::ProbeLibraryDir | BuildStage::CreateLibraryDir => BuildStage::ProbeArtifact,
                BuildStage::ProbeArtifact => BuildStage::CopyArtifact,
                BuildStage::CopyArtifact => BuildStage::WriteDescriptor,
                _ => BuildStage::Finished,
            },
        },
    };
    (follow, follow.request(release))
}

} // verus!
