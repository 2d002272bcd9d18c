//! The command lines of the processes the tool runs.

use vstd::prelude::*;
use crate::layout::Place;
use crate::platform::{export_platform_name, get_platform_export_name, HostOs};
use crate::protocol::{runs_process, Action};

verus! {

/// The program a process runs.
#[derive(Clone, Debug, PartialEq, Eq)]
pub enum Program {
    /// A program found by its name on the search path.
    Named(String),
    /// The file at a place's absolute path, as it was resolved before.
    Resolved(Place),
}

/// One argument of a process.
#[derive(Clone, Debug, PartialEq, Eq)]
pub enum Arg {
    /// The text as it stands.
    Text(String),
    /// The path of a place, as its parts are joined onto its anchor.
    Path(Place),
    /// The absolute path of a place, as it was resolved before.
    Resolved(Place),
}

/// A process to run: program, arguments, the directory it runs in (by its
/// absolute path, resolved before; the tool's own where there is none), and
/// whether its output is thrown away.
#[derive(Clone, Debug, PartialEq, Eq)]
pub struct Invocation {
    pub program: Program,
    pub args: Vec<Arg>,
    pub dir: Option<Place>,
    pub silent: bool,
}

/// What a `Program` stands for.
pub ghost enum ProgramView {
    Named(Seq<char>),
    Resolved(Place),
}

/// What an `Arg` stands for.
pub ghost enum ArgView {
    Text(Seq<char>),
    Path(Place),
    Resolved(Place),
}

/// What an `Invocation` stands for.
pub ghost struct InvocationView {
    pub program: ProgramView,
    pub args: Seq<ArgView>,
    pub dir: Option<Place>,
    pub silent: bool,
}

impl View for Program {
    type V = ProgramView;

    open spec fn view(&self) -> ProgramView {
        match self {
            Program::Named(name) => ProgramView::Named(name@),
            Program::Resolved(place) => ProgramView::Resolved(*place),
        }
    }
}

impl DeepView for Arg {
    type V = ArgView;

    open spec fn deep_view(&self) -> ArgView {
        match self {
            Arg::Text(text) => ArgView::Text(text@),
            Arg::Path(place) => ArgView::Path(*place),
            Arg::Resolved(place) => ArgView::Resolved(*place),
        }
    }
}

impl View for Invocation {
    type V = InvocationView;

    open spec fn view(&self) -> InvocationView {
        InvocationView {
            program: self.program@,
            args: self.args.deep_view(),
            dir: self.dir,
            silent: self.silent,
        }
    }
}

/// The arguments that stand for the texts of `words`, in order.
pub open spec fn words(words: Seq<Seq<char>>) -> Seq<ArgView> {
    Seq::new(words.len(), |i: int| ArgView::Text(words[i]))
}

/// The compiler's command line: `cargo build`, with `--release` for a
/// release build.
pub open spec fn compile_command(release: bool) -> InvocationView {
    InvocationView {
        program: ProgramView::Named("cargo"@),
        args: if release {
            words(seq!["build"@, "--release"@])
        } else {
            words(seq!["build"@])
        },
        dir: None,
        silent: false,
    }
}

/// The command line that takes the quarantine mark off the engine's bundle.
pub open spec fn unquarantine_command() -> InvocationView {
    InvocationView {
        program: ProgramView::Named("xattr"@),
        args: words(seq!["-d"@, "com.apple.quarantine"@]).push(
            ArgView::Path(Place::EngineBundle),
        ),
        dir: None,
        silent: true,
    }
}

/// The engine's command line: it runs inside the project, is told the
/// project's path, and opens the editor where `editor` is set.
pub open spec fn launch_command(editor: bool) -> InvocationView {
    InvocationView {
        program: ProgramView::Resolved(Place::EngineBinary),
        args: (if editor {
            words(seq!["-e"@])
        } else {
            words(seq![])
        }) + words(seq!["--path"@]).push(ArgView::Resolved(Place::GameDir)),
        dir: Some(Place::GameDir),
        silent: false,
    }
}

/// The exporter's command line on `host`: the engine without a window and
/// without sound, told to export a release for the host's platform to the
/// export's place.
pub open spec fn export_command(host: HostOs) -> InvocationView {
    InvocationView {
        program: ProgramView::Resolved(Place::EngineBinary),
        args: words(
            seq![
                "--headless"@,
                "--verbose"@,
                "--audio-driver"@,
                "Dummy"@,
                "--display-driver"@,
                "headless"@,
                "--export-release"@,
                export_platform_name(host),
            ],
        ).push(ArgView::Path(Place::ExportOutput)),
        dir: Some(Place::GameDir),
        silent: false,
    }
}

/// The command line `action` stands for on `host`, where it runs a process.
pub open spec fn invocation_of(host: HostOs, action: Action) -> InvocationView {
    match action {
        Action::Compile { release } => compile_command(release),
        Action::Unquarantine => unquarantine_command(),
        Action::Launch { editor } => launch_command(editor),
        _ => export_command(host),
    }
}

/// Appends `word` to `args` as a text.
fn push_word(args: &mut Vec<Arg>, word: &str)
    ensures
        final(args).deep_view() == old(args).deep_view().push(ArgView::Text(word@)),
{
    args.push(Arg::Text(String::from_str(word)));
    assert(args.deep_view() =~= old(args).deep_view().push(ArgView::Text(word@)));
}

/// Appends the path of `place` to `args`, resolved or not.
fn push_place(args: &mut Vec<Arg>, place: Place, resolved: bool)
    ensures
        final(args).deep_view() == old(args).deep_view().push(
            if resolved {
                ArgView::Resolved(place)
            } else {
                ArgView::Path(place)
            },
        ),
{
    if resolved {
        args.push(Arg::Resolved(place));
    } else {
        args.push(Arg::Path(place));
    }
    assert(args.deep_view() =~= old(args).deep_view().push(
        if resolved {
            ArgView::Resolved(place)
        } else {
            ArgView::Path(place)
        },
    ));
}

/// Builds the compiler's command line.
fn compile_line(release: bool) -> (line: Invocation)
    ensures
        line@ == compile_command(release),
{
    let mut args: Vec<Arg> = Vec::new();
    push_word(&mut args, "build");
    if release {
        push_word(&mut args, "--release");
    }
    let line = Invocation {
        program: Program::Named(String::from_str("cargo")),
        args,
        dir: None,
        silent: false,
    };
    assert(line@.args =~= compile_command(release).args);
    line
}

/// Builds the command line that takes the quarantine mark off.
fn unquarantine_line() -> (line: Invocation)
    ensures
        line@ == unquarantine_command(),
{
    let mut args: Vec<Arg> = Vec::new();
    push_word(&mut args, "-d");
    push_word(&mut args, "com.apple.quarantine");
    push_place(&mut args, Place::EngineBundle, false);
    let line = Invocation {
        program: Program::Named(String::from_str("xattr")),
        args,
        dir: None,
        silent: true,
    };
    assert(line@.args =~= unquarantine_command().args);
    line
}

/// Builds the engine's command line.
fn launch_line(editor: bool) -> (line: Invocation)
    ensures
        line@ == launch_command(editor),
{
    let mut args: Vec<Arg> = Vec::new();
    if editor {
        push_word(&mut args, "-e");
    }
    push_word(&mut args, "--path");
    push_place(&mut args, Place::GameDir, true);
    let line = Invocation {
        program: Program::Resolved(Place::EngineBinary),
        args,
        dir: Some(Place::GameDir),
        silent: false,
    };
    assert(line@.args =~= launch_command(editor).args);
    line
}

/// Builds the exporter's command line.
fn export_line(host: HostOs) -> (line: Invocation)
    ensures
        line@ == export_command(host),
{
    let (platform, _) = get_platform_export_name(host);
    let mut args: Vec<Arg> = Vec::new();
    push_word(&mut args, "--headless");
    push_word(&mut args, "--verbose");
    push_word(&mut args, "--audio-driver");
    push_word(&mut args, "Dummy");
    push_word(&mut args, "--display-driver");
    push_word(&mut args, "headless");
    push_word(&mut args, "--export-release");
    push_word(&mut args, platform);
    push_place(&mut args, Place::ExportOutput, false);
    let line = Invocation {
        program: Program::Resolved(Place::EngineBinary),
        args,
        dir: Some(Place::GameDir),
        silent: false,
    };
    assert(line@.args =~= export_command(host).args);
    line
}

/// The command line of `action` on `host`, or `None` where the action runs
/// no process.
pub fn command_line(host: HostOs, action: Action) -> (line: Option<Invocation>)
    ensures
        line is Some <==> runs_process(action),
        line matches Some(invocation) ==> invocation@ == invocation_of(host, action),
{
    match action {
        Action::Compile { release } => Some(compile_line(release)),
        Action::Unquarantine => Some(unquarantine_line()),
        Action::Launch { editor } => Some(launch_line(editor)),
        Action::Export => Some(export_line(host)),
        _ => None,
    }
}

} // verus!
