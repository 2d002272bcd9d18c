//! A whole run of the tool: one subcommand, carried through the procedures
//! it is made of, one after the other.

use vstd::prelude::*;
use crate::install::{build_and_install, build_next, build_request, BuildStage};
use crate::launch::{launch_next, launch_request, run_godot, LaunchStage};
use crate::package::{
    ensure_export_presets, export_next, export_request, package_game, presets_next,
    presets_request, ExportStage, PresetsStage,
};
use crate::platform::HostOs;
use crate::protocol::{Outcome, Step};
use crate::setup::{setup_godot, setup_next, setup_request, SetupStage};

verus! {

/// What the tool was asked to do.
#[derive(Clone, Copy, Debug, PartialEq, Eq, Structural)]
pub enum Command {
    /// Provision the engine and the export templates.
    Setup,
    /// Build the native library and install it into the project.
    Build { release: bool },
    /// Build, then open the project in the engine's editor.
    Editor,
    /// Build, then run the project.
    Run,
    /// Build for release, then export the project.
    Package,
}

/// The procedure a run is in, and how far that procedure has come.
#[derive(Clone, Copy, Debug, PartialEq, Eq, Structural)]
pub enum Phase {
    Setup(SetupStage),
    Build(BuildStage),
    Launch(LaunchStage),
    Presets(PresetsStage),
    Export(ExportStage),
}

/// A run of one subcommand on one host.
#[derive(Clone, Copy, Debug, PartialEq, Eq, Structural)]
pub struct Session {
    pub host: HostOs,
    pub command: Command,
    pub phase: Phase,
}

/// Whether `command` builds in release mode: where it is told to, and for
/// packaging.
pub open spec fn release_of(command: Command) -> bool {
    match command {
        Command::Build { release } => release,
        Command::Package => true,
        _ => false,
    }
}

/// Whether `command` opens the editor.
pub open spec fn editor_of(command: Command) -> bool {
    command is Editor
}

/// The phase `command` starts in: provisioning for `Setup`, a build for all
/// others.
pub open spec fn first_phase(command: Command) -> Phase {
    match command {
        Command::Setup => Phase::Setup(SetupStage::ProbeBinDir),
        _ => Phase::Build(BuildStage::Compile),
    }
}

/// The phase that takes over once `phase` has finished, if `command` has
/// more to do: a launch after the build for `Editor` and `Run`; the export
/// configuration after the build, and the export after that, for `Package`.
pub open spec fn following(command: Command, phase: Phase) -> Option<Phase> {
    match (command, phase) {
        (Command::Editor, Phase::Build(BuildStage::Finished)) => Some(
            Phase::Launch(LaunchStage::ProbeEngine),
        ),
        (Command::Run, Phase::Build(BuildStage::Finished)) => Some(
            Phase::Launch(LaunchStage::ProbeEngine),
        ),
        (Command::Package, Phase::Build(BuildStage::Finished)) => Some(
            Phase::Presets(PresetsStage::ProbePresets),
        ),
        (Command::Package, Phase::Presets(PresetsStage::Finished)) => Some(
            Phase::Export(ExportStage::ProbeBuilds),
        ),
        _ => None,
    }
}

/// What a run of `command` asks for in `phase`.
pub open spec fn phase_request(command: Command, phase: Phase) -> Step {
    match phase {
        Phase::Setup(stage) => setup_request(stage),
        Phase::Build(stage) => build_request(release_of(command), stage),
        Phase::Launch(stage) => launch_request(editor_of(command), stage),
        Phase::Presets(stage) => presets_request(stage),
        Phase::Export(stage) => export_request(stage),
    }
}

/// Where `outcome` takes `phase` inside its procedure.
pub open spec fn phase_moved(
    host: HostOs,
    command: Command,
    phase: Phase,
    outcome: Outcome,
) -> Phase {
    match phase {
        Phase::Setup(stage) => Phase::Setup(setup_next(host, stage, outcome)),
        Phase::Build(stage) => Phase::Build(
            build_next(host, release_of(command), stage, outcome),
        ),
        Phase::Launch(stage) => Phase::Launch(launch_next(editor_of(command), stage, outcome)),
        Phase::Presets(stage) => Phase::Presets(presets_next(stage, outcome)),
        Phase::Export(stage) => Phase::Export(export_next(stage, outcome)),
    }
}

/// The phase that follows `phase` after `outcome`: the procedure moves on,
/// and where it has finished the next procedure takes over. A phase that
/// asks for nothing stays as it is.
pub open spec fn phase_next(
    host: HostOs,
    command: Command,
    phase: Phase,
    outcome: Outcome,
) -> Phase {
    let moved = phase_moved(host, command, phase, outcome);
    if !(phase_request(command, phase) is Do) {
        phase
    } else {
        match following(command, moved) {
            Some(next) => next,
            None => moved,
        }
    }
}

/// A run of `command` on `host`, before anything was done.
pub open spec fn fresh(host: HostOs, command: Command) -> Session {
    Session { host, command, phase: first_phase(command) }
}

impl Session {
    /// What the run asks for now.
    pub open spec fn spec_step(self) -> Step {
        phase_request(self.command, self.phase)
    }

    /// The run after `outcome` was handed over.
    pub open spec fn spec_advance(self, outcome: Outcome) -> Session {
        Session { phase: phase_next(self.host, self.command, self.phase, outcome), ..self }
    }

    /// The run after all of `outcomes` were handed over, in order.
    pub open spec fn after(self, outcomes: Seq<Outcome>) -> Session
        decreases outcomes.len(),
    {
        if outcomes.len() == 0 {
            self
        } else {
            self.after(outcomes.drop_last()).spec_advance(outcomes.last())
        }
    }

    /// Whether the run has ended, well or badly.
    pub open spec fn ended(self) -> bool {
        !(self.spec_step() is Do)
    }

    /// A run of `command` on `host`, before anything was done.
    pub fn begin(host: HostOs, command: Command) -> (session: Session)
        ensures
            session == fresh(host, command),
    {
        let phase = match command {
            Command::Setup => Phase::Setup(SetupStage::first()),
            _ => Phase::Build(BuildStage::first()),
        };
        Session { host, command, phase }
    }

    /// Whether the build of this run is a release build.
    pub fn release(&self) -> (release: bool)
        ensures
            release == release_of(self.command),
    {
        match self.command {
            Command::Build { release } => release,
            Command::Package => true,
            _ => false,
        }
    }

    /// Whether this run opens the editor.
    pub fn editor(&self) -> (editor: bool)
        ensures
            editor == editor_of(self.command),
    {
        match self.command {
            Command::Editor => true,
            _ => false,
        }
    }

    /// What the run asks for now.
    pub fn step(&self) -> (step: Step)
        ensures
            step == self.spec_step(),
    {
        match self.phase {
            Phase::Setup(stage) => stage.request(),
            Phase::Build(stage) => stage.request(self.release()),
            Phase::Launch(stage) => stage.request(self.editor()),
            Phase::Presets(stage) => stage.request(),
            Phase::Export(stage) => stage.request(),
        }
    }

    /// Takes the outcome of what the run asked for, moves the run on, and
    /// gives what it asks for next.
    pub fn advance(&mut self, outcome: Outcome) -> (step: Step)
        ensures
            *final(self) == old(self).spec_advance(outcome),
            step == final(self).spec_step(),
    {
        let release = self.release();
        let editor = self.editor();
        let now = self.step();
        match now {
            Step::Do(_) => {},
            _ => {
                return now;
            },
        }
        let (phase, step) = match self.phase {
            Phase::Setup(stage) => {
                let (next, step) = setup_godot(self.host, stage, outcome);
                (Phase::Setup(next), step)
            },
            Phase::Build(stage) => {
                let (next, step) = build_and_install(self.host, release, stage, outcome);
                match (self.command, next) {
                    (Command::Editor, BuildStage::Finished) | (Command::Run, BuildStage::Finished) => {
                        let first = LaunchStage::first();
                        (Phase::Launch(first), first.request(editor))
                    },
                    (Command::Package, BuildStage::Finished) => {
                        let first = PresetsStage::first();
                        (Phase::Presets(first), first.request())
                    },
                    _ => (Phase::Build(next), step),
                }
            },
            Phase::Launch(stage) => {
                let (next, step) = run_godot(editor, stage, outcome);
                (Phase::Launch(next), step)
            },
            Phase::Presets(stage) => {
                let (next, step) = ensure_export_presets(stage, outcome);
                match (self.command, next) {
                    (Command::Package, PresetsStage::Finished) => {
                        let first = ExportStage::first();
                        (Phase::Export(first), first.request())
                    },
                    _ => (Phase::Presets(next), step),
                }
            },
            Phase::Export(stage) => {
                let (next, step) = package_game(stage, outcome);
                (Phase::Export(next), step)
            },
        };
        self.phase = phase;
        step
    }
}

} // verus!
