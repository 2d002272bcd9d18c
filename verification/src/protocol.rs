//! What passes between the planning logic and whoever carries the work out.
//!
//! The logic asks for one piece of outside work at a time, as an `Action`.
//! The driver performs it and hands back an `Outcome`. The logic never
//! touches a file, the network or a process itself.

use vstd::prelude::*;
use crate::documents::Document;
use crate::layout::Place;
use crate::release::Archive;

verus! {

/// One piece of outside work.
#[derive(Clone, Copy, Debug, PartialEq, Eq, Structural)]
pub enum Action {
    /// Ask whether the place exists.
    Probe(Place),
    /// Create the directory; its parent must exist.
    CreateDir(Place),
    /// Create the directory and every missing parent.
    CreateDirAll(Place),
    /// Remove the directory and all it holds.
    RemoveDirAll(Place),
    /// Download the archive, as `release::download_of` describes it.
    Fetch(Archive),
    /// Read the downloaded archive's table of contents.
    Open(Archive),
    /// Unpack the opened archive into the directory.
    Unpack(Archive, Place),
    /// Set the file's permission bits to `setup::EXECUTABLE_MODE`.
    MakeExecutable(Place),
    /// Take the quarantine mark off the engine's bundle, saying nothing.
    Unquarantine,
    /// Move the first place to the second.
    Rename(Place, Place),
    /// Copy all that the first directory holds into the second, with the
    /// options of `copying::templates_copy_options`.
    CopyContents(Place, Place),
    /// Copy the first file to the second, replacing it.
    CopyFile(Place, Place),
    /// Write the document to its place, replacing what is there.
    Write(Document),
    /// Find the place's absolute path, and keep it for the processes to come.
    Resolve(Place),
    /// Run the compiler and wait for it. The command lines of this and of
    /// the other processes are in `process::command_line`.
    Compile { release: bool },
    /// Run the engine on the project and wait for it.
    Launch { editor: bool },
    /// Run the engine's exporter and wait for it.
    Export,
}

/// What came of the work asked for last.
#[derive(Clone, Copy, Debug, PartialEq, Eq, Structural)]
pub enum Outcome {
    /// The work was carried out.
    Done,
    /// The place that was probed exists.
    Present,
    /// The place that was probed does not exist.
    Absent,
    /// The process ran and reported success.
    ExitedOk,
    /// The process ran and reported failure.
    ExitedBad,
    /// The work could not be carried out.
    Failed,
}

/// An outcome as the answer to one action.
#[derive(Clone, Copy, Debug, PartialEq, Eq, Structural)]
pub enum Reply {
    /// The place exists; the process succeeded; the work was carried out.
    Yes,
    /// The place does not exist; the process reported failure.
    No,
    /// The work could not be carried out, or the outcome answers another
    /// kind of action.
    Broken,
}

/// Why a run was given up.
#[derive(Clone, Copy, Debug, PartialEq, Eq, Structural)]
pub enum Failure {
    /// Outside work failed; its own error is the diagnostic.
    Outside,
    /// The engine archive did not hold the executable.
    BinaryNotExtracted,
    /// The templates archive did not hold the folder `templates`.
    TemplatesFolderMissing,
    /// The compiler reported failure.
    BuildFailed,
    /// Nothing can be built on this host.
    UnsupportedOs,
    /// The compiler reported success and left no library.
    ArtifactMissing { release: bool },
    /// The engine was never provisioned.
    EngineMissing,
    /// The engine's absolute path could not be found.
    EngineUnresolved,
    /// The engine could not be started.
    LaunchFailed,
    /// The exporter reported failure.
    ExportFailed,
}

/// What the logic wants next.
#[derive(Clone, Copy, Debug, PartialEq, Eq, Structural)]
pub enum Step {
    /// Perform the action and report its outcome.
    Do(Action),
    /// Nothing is left to do.
    Finish,
    /// Give up with this diagnostic.
    Fail(Failure),
}

/// Whether `action` runs a process.
pub open spec fn runs_process(action: Action) -> bool {
    action is Unquarantine || action is Compile || action is Launch || action is Export
}

/// How `outcome` answers `action`. A probe is answered by `Present` or
/// `Absent`, a process by `ExitedOk` or `ExitedBad`, all other work by
/// `Done`; every other outcome counts as work that could not be carried out.
pub open spec fn reply_to(action: Action, outcome: Outcome) -> Reply {
    if action is Probe {
        match outcome {
            Outcome::Present => Reply::Yes,
            Outcome::Absent => Reply::No,
            _ => Reply::Broken,
        }
    } else if runs_process(action) {
        match outcome {
            Outcome::ExitedOk => Reply::Yes,
            Outcome::ExitedBad => Reply::No,
            _ => Reply::Broken,
        }
    } else {
        match outcome {
            Outcome::Done => Reply::Yes,
            _ => Reply::Broken,
        }
    }
}

/// How `outcome` answers whatever `step` asks for. Where it asks for
/// nothing, no outcome is an answer.
pub open spec fn reply_to_step(step: Step, outcome: Outcome) -> Reply {
    match step {
        Step::Do(action) => reply_to(action, outcome),
        _ => Reply::Broken,
    }
}

impl Action {
    /// Reads `outcome` as the answer to this action.
    pub fn reply(self, outcome: Outcome) -> (reply: Reply)
        ensures
            reply == reply_to(self, outcome),
    {
        match self {
            Action::Probe(_) => match outcome {
                Outcome::Present => Reply::Yes,
                Outcome::Absent => Reply::No,
                _ => Reply::Broken,
            },
            Action::Unquarantine | Action::Compile { .. } | Action::Launch { .. } | Action::Export => match outcome {
                Outcome::ExitedOk => Reply::Yes,
                Outcome::ExitedBad => Reply::No,
                _ => Reply::Broken,
            },
            _ => match outcome {
                Outcome::Done => Reply::Yes,
                _ => Reply::Broken,
            },
        }
    }
}

impl Step {
    /// Reads `outcome` as the answer to what this step asks for.
    pub fn reply(self, outcome: Outcome) -> (reply: Reply)
        ensures
            reply == reply_to_step(self, outcome),
    {
        match self {
            Step::Do(action) => action.reply(outcome),
            _ => Reply::Broken,
        }
    }
}

/// The diagnostic of `failure`, without the path it may name. Empty where
/// the outside error is the whole diagnostic.
pub open spec fn failure_text(failure: Failure) -> Seq<char> {
    match failure {
        Failure::Outside => ""@,
        Failure::BinaryNotExtracted => "Extracted binary not found at "@,
        Failure::TemplatesFolderMissing => "Expected 'templates' folder in .tpz archive"@,
        Failure::BuildFailed => "Cargo build failed"@,
        Failure::UnsupportedOs => "Unsupported OS"@,
        Failure::ArtifactMissing { .. } => "Failed to find artifact: "@,
        Failure::EngineMissing => "Godot executable not found. Run 'cargo xtask setup' first."@,
        Failure::EngineUnresolved => "Failed to canonicalize Godot executable path"@,
        Failure::LaunchFailed => "Failed to launch Godot process"@,
        Failure::ExportFailed => "Godot export failed."@,
    }
}

/// The place whose path ends the diagnostic of `failure`, if it names one.
pub open spec fn failure_place(failure: Failure) -> Option<Place> {
    match failure {
        Failure::BinaryNotExtracted => Some(Place::EngineBinary),
        Failure::ArtifactMissing { release } => Some(Place::Artifact { release }),
        _ => None,
    }
}

/// Whether the error of the outside work belongs to the diagnostic of
/// `failure`, as its cause.
pub open spec fn failure_has_cause(failure: Failure) -> bool {
    failure is Outside || failure is EngineUnresolved || failure is LaunchFailed
}

impl Failure {
    /// The diagnostic, without the path it may name.
    pub fn message(self) -> (text: String)
        ensures
            text@ == failure_text(self),
    {
        match self {
            Failure::Outside => String::from_str(""),
            Failure::BinaryNotExtracted => String::from_str("Extracted binary not found at "),
            Failure::TemplatesFolderMissing => String::from_str(
                "Expected 'templates' folder in .tpz archive",
            ),
            Failure::BuildFailed => String::from_str("Cargo build failed"),
            Failure::UnsupportedOs => String::from_str("Unsupported OS"),
            Failure::ArtifactMissing { .. } => String::from_str("Failed to find artifact: "),
            Failure::EngineMissing => String::from_str(
                "Godot executable not found. Run 'cargo xtask setup' first.",
            ),
            Failure::EngineUnresolved => String::from_str(
                "Failed to canonicalize Godot executable path",
            ),
            Failure::LaunchFailed => String::from_str("Failed to launch Godot process"),
            Failure::ExportFailed => String::from_str("Godot export failed."),
        }
    }

    /// The place whose path ends the diagnostic, if it names one.
    pub fn place(self) -> (place: Option<Place>)
        ensures
            place == failure_place(self),
    {
        match self {
            Failure::BinaryNotExtracted => Some(Place::EngineBinary),
            Failure::ArtifactMissing { release } => Some(Place::Artifact { release }),
            _ => None,
        }
    }

    /// Whether the outside error belongs to the diagnostic, as its cause.
    pub fn has_cause(self) -> (yes: bool)
        ensures
            yes == failure_has_cause(self),
    {
        match self {
            Failure::Outside | Failure::EngineUnresolved | Failure::LaunchFailed => true,
            _ => false,
        }
    }
}

} // verus!
