use xtask::layout::Place;
use xtask::platform::HostOs;
use xtask::process::{command_line, Arg, Invocation, Program};
use xtask::protocol::{Action, Failure, Outcome, Reply, Step};
use xtask::release::Archive;

fn text_args(words: Vec<&str>) -> Vec<Arg> {
    words.into_iter().map(|word| Arg::Text(String::from(word))).collect()
}

#[test]
fn compiler_command_line() {
    assert_eq!(
        command_line(HostOs::Linux, Action::Compile { release: false }),
        Some(Invocation {
            program: Program::Named(String::from("cargo")),
            args: text_args(vec!["build"]),
            dir: None,
            silent: false,
        })
    );
    assert_eq!(
        command_line(HostOs::Windows, Action::Compile { release: true }),
        Some(Invocation {
            program: Program::Named(String::from("cargo")),
            args: text_args(vec!["build", "--release"]),
            dir: None,
            silent: false,
        })
    );
}

#[test]
fn unquarantine_command_line() {
    let mut args = text_args(vec!["-d", "com.apple.quarantine"]);
    args.push(Arg::Path(Place::EngineBundle));
    assert_eq!(
        command_line(HostOs::MacOs, Action::Unquarantine),
        Some(Invocation {
            program: Program::Named(String::from("xattr")),
            args,
            dir: None,
            silent: true,
        })
    );
}

#[test]
fn engine_command_line() {
    let mut run_args = text_args(vec!["--path"]);
    run_args.push(Arg::Resolved(Place::GameDir));
    assert_eq!(
        command_line(HostOs::Linux, Action::Launch { editor: false }),
        Some(Invocation {
            program: Program::Resolved(Place::EngineBinary),
            args: run_args,
            dir: Some(Place::GameDir),
            silent: false,
        })
    );
    let mut editor_args = text_args(vec!["-e", "--path"]);
    editor_args.push(Arg::Resolved(Place::GameDir));
    assert_eq!(
        command_line(HostOs::Linux, Action::Launch { editor: true }),
        Some(Invocation {
            program: Program::Resolved(Place::EngineBinary),
            args: editor_args,
            dir: Some(Place::GameDir),
            silent: false,
        })
    );
}

#[test]
fn exporter_command_line() {
    for (host, platform) in [
        (HostOs::Windows, "Windows Desktop"),
        (HostOs::MacOs, "macOS"),
        (HostOs::Linux, "Linux"),
        (HostOs::Other, "Linux"),
    ] {
        let mut args = text_args(vec![
            "--headless",
            "--verbose",
            "--audio-driver",
            "Dummy",
            "--display-driver",
            "headless",
            "--export-release",
            platform,
        ]);
        args.push(Arg::Path(Place::ExportOutput));
        assert_eq!(
            command_line(host, Action::Export),
            Some(Invocation {
                program: Program::Resolved(Place::EngineBinary),
                args,
                dir: Some(Place::GameDir),
                silent: false,
            })
        );
    }
}

#[test]
fn other_actions_run_no_process() {
    for action in [
        Action::Probe(Place::BinDir),
        Action::CreateDir(Place::BinDir),
        Action::CreateDirAll(Place::GameDir),
        Action::RemoveDirAll(Place::TemplatesScratch),
        Action::Fetch(Archive::Editor),
        Action::Open(Archive::Editor),
        Action::Unpack(Archive::Templates, Place::TemplatesScratch),
        Action::MakeExecutable(Place::EngineBinary),
        Action::Rename(Place::TemplatesUnpacked, Place::TemplatesVersion),
        Action::CopyContents(Place::TemplatesUnpacked, Place::TemplatesVersion),
        Action::CopyFile(Place::Artifact { release: true }, Place::InstalledLibrary),
        Action::Write(xtask::documents::Document::Descriptor),
        Action::Resolve(Place::GameDir),
    ] {
        assert_eq!(command_line(HostOs::Linux, action), None);
    }
}

#[test]
fn a_probe_is_answered_by_present_or_absent() {
    let probe = Action::Probe(Place::GameDir);
    assert_eq!(probe.reply(Outcome::Present), Reply::Yes);
    assert_eq!(probe.reply(Outcome::Absent), Reply::No);
    for outcome in [Outcome::Done, Outcome::ExitedOk, Outcome::ExitedBad, Outcome::Failed] {
        assert_eq!(probe.reply(outcome), Reply::Broken);
    }
}

#[test]
fn a_process_is_answered_by_its_exit() {
    for action in [
        Action::Compile { release: false },
        Action::Launch { editor: true },
        Action::Export,
        Action::Unquarantine,
    ] {
        assert_eq!(action.reply(Outcome::ExitedOk), Reply::Yes);
        assert_eq!(action.reply(Outcome::ExitedBad), Reply::No);
        for outcome in [Outcome::Done, Outcome::Present, Outcome::Absent, Outcome::Failed] {
            assert_eq!(action.reply(outcome), Reply::Broken);
        }
    }
}

#[test]
fn other_work_is_answered_by_done() {
    for action in [
        Action::CreateDir(Place::BinDir),
        Action::Fetch(Archive::Templates),
        Action::Write(xtask::documents::Document::Project),
        Action::Resolve(Place::EngineBinary),
        Action::Rename(Place::TemplatesUnpacked, Place::TemplatesVersion),
    ] {
        assert_eq!(action.reply(Outcome::Done), Reply::Yes);
        for outcome in [
            Outcome::Present,
            Outcome::Absent,
            Outcome::ExitedOk,
            Outcome::ExitedBad,
            Outcome::Failed,
        ] {
            assert_eq!(action.reply(outcome), Reply::Broken);
        }
    }
}

#[test]
fn a_step_that_asks_for_nothing_has_no_answer() {
    assert_eq!(Step::Finish.reply(Outcome::Done), Reply::Broken);
    assert_eq!(Step::Fail(Failure::BuildFailed).reply(Outcome::Present), Reply::Broken);
    assert_eq!(Step::Do(Action::Probe(Place::BinDir)).reply(Outcome::Present), Reply::Yes);
}

#[test]
fn failure_messages() {
    assert_eq!(Failure::Outside.message(), "");
    assert_eq!(Failure::BinaryNotExtracted.message(), "Extracted binary not found at ");
    assert_eq!(
        Failure::TemplatesFolderMissing.message(),
        "Expected 'templates' folder in .tpz archive"
    );
    assert_eq!(Failure::BuildFailed.message(), "Cargo build failed");
    assert_eq!(Failure::UnsupportedOs.message(), "Unsupported OS");
    assert_eq!(
        Failure::ArtifactMissing { release: true }.message(),
        "Failed to find artifact: "
    );
    assert_eq!(
        Failure::EngineMissing.message(),
        "Godot executable not found. Run 'cargo xtask setup' first."
    );
    assert_eq!(
        Failure::EngineUnresolved.message(),
        "Failed to canonicalize Godot executable path"
    );
    assert_eq!(Failure::LaunchFailed.message(), "Failed to launch Godot process");
    assert_eq!(Failure::ExportFailed.message(), "Godot export failed.");
}

#[test]
fn failure_places_and_causes() {
    assert_eq!(Failure::BinaryNotExtracted.place(), Some(Place::EngineBinary));
    assert_eq!(
        Failure::ArtifactMissing { release: false }.place(),
        Some(Place::Artifact { release: false })
    );
    assert_eq!(
        Failure::ArtifactMissing { release: true }.place(),
        Some(Place::Artifact { release: true })
    );
    for failure in [
        Failure::Outside,
        Failure::TemplatesFolderMissing,
        Failure::BuildFailed,
        Failure::UnsupportedOs,
        Failure::EngineMissing,
        Failure::EngineUnresolved,
        Failure::LaunchFailed,
        Failure::ExportFailed,
    ] {
        assert_eq!(failure.place(), None);
    }
    for failure in [Failure::Outside, Failure::EngineUnresolved, Failure::LaunchFailed] {
        assert!(failure.has_cause());
    }
    for failure in [
        Failure::BinaryNotExtracted,
        Failure::TemplatesFolderMissing,
        Failure::BuildFailed,
        Failure::UnsupportedOs,
        Failure::ArtifactMissing { release: false },
        Failure::EngineMissing,
        Failure::ExportFailed,
    ] {
        assert!(!failure.has_cause());
    }
}
