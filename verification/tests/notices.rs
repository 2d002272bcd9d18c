use xtask::copying::templates_copy_options;
use xtask::documents::Document;
use xtask::layout::Place;
use xtask::messages::{announce, report, Message};
use xtask::platform::HostOs;
use xtask::protocol::{Action, Failure, Outcome, Step};
use xtask::release::Archive;
use xtask::session::{Command, Session};

fn plain_line(text: &str) -> Message {
    Message { text: String::from(text), place: None }
}

fn naming_line(text: &str, place: Place) -> Message {
    Message { text: String::from(text), place: Some(place) }
}

#[test]
fn templates_are_copied_by_content_and_replace_nothing() {
    let options = templates_copy_options();
    assert!(options.content_only);
    assert!(!options.overwrite);
    assert!(!options.skip_exist);
    assert!(!options.copy_inside);
    assert_eq!(options.depth, 0);
    assert_eq!(options.buffer_size, 64000);
    let plain = fs_extra::dir::CopyOptions::new();
    assert!(!plain.content_only);
}

#[test]
fn message_constructors() {
    assert_eq!(Message::plain("a"), plain_line("a"));
    assert_eq!(Message::naming("b", Place::GameDir), naming_line("b", Place::GameDir));
}

#[test]
fn downloads_are_announced_with_their_address() {
    assert_eq!(
        announce(HostOs::Linux, Action::Fetch(Archive::Editor)),
        vec![plain_line(
            "Downloading Godot from: https://github.com/godotengine/godot/releases/download/4.6-stable/Godot_v4.6-stable_linux.x86_64.zip"
        )]
    );
    assert_eq!(
        announce(HostOs::Windows, Action::Fetch(Archive::Editor)),
        vec![plain_line(
            "Downloading Godot from: https://github.com/godotengine/godot/releases/download/4.6-stable/Godot_v4.6-stable_win64.exe.zip"
        )]
    );
    assert_eq!(
        announce(HostOs::MacOs, Action::Fetch(Archive::Templates)),
        vec![plain_line(
            "Downloading Export Templates from: https://github.com/godotengine/godot/releases/download/4.6-stable/Godot_v4.6-stable_export_templates.tpz"
        )]
    );
}

#[test]
fn other_announcements() {
    let host = HostOs::Linux;
    assert_eq!(announce(host, Action::Open(Archive::Editor)), vec![plain_line("Extracting...")]);
    assert_eq!(
        announce(host, Action::Open(Archive::Templates)),
        vec![plain_line("Extracting templates...")]
    );
    assert_eq!(
        announce(host, Action::Probe(Place::TemplatesVersion)),
        vec![
            naming_line("Godot Setup Complete at ", Place::BinDir),
            plain_line("Checking Export Templates..."),
        ]
    );
    assert_eq!(
        announce(host, Action::Compile { release: true }),
        vec![plain_line("Building Rust crates...")]
    );
    assert_eq!(
        announce(host, Action::Write(Document::Project)),
        vec![plain_line("project.godot missing. Creating minimal project...")]
    );
    assert_eq!(
        announce(host, Action::Write(Document::ExportPresets)),
        vec![plain_line("Generating export_presets.cfg...")]
    );
    assert_eq!(
        announce(host, Action::Launch { editor: false }),
        vec![plain_line("Launching Godot...")]
    );
}

#[test]
fn most_actions_are_not_announced() {
    for action in [
        Action::Probe(Place::BinDir),
        Action::Probe(Place::ProjectFile),
        Action::CreateDir(Place::BinDir),
        Action::CreateDirAll(Place::ExportDir),
        Action::RemoveDirAll(Place::TemplatesScratch),
        Action::Unpack(Archive::Editor, Place::BinDir),
        Action::MakeExecutable(Place::EngineBinary),
        Action::Unquarantine,
        Action::Rename(Place::TemplatesUnpacked, Place::TemplatesVersion),
        Action::CopyContents(Place::TemplatesUnpacked, Place::TemplatesVersion),
        Action::CopyFile(Place::Artifact { release: false }, Place::InstalledLibrary),
        Action::Write(Document::Descriptor),
        Action::Resolve(Place::GameDir),
        Action::Export,
    ] {
        assert_eq!(announce(HostOs::MacOs, action), vec![]);
    }
}

#[test]
fn reports_of_work_that_went_well() {
    let host = HostOs::Windows;
    let next = Step::Do(Action::Probe(Place::GameDir));
    assert_eq!(
        report(host, Action::MakeExecutable(Place::EngineBinary), Outcome::Done, next),
        Some(naming_line("Fixed permissions for: ", Place::EngineBinary))
    );
    assert_eq!(
        report(host, Action::Probe(Place::TemplatesVersion), Outcome::Present, Step::Finish),
        Some(naming_line("Templates already installed at ", Place::TemplatesVersion))
    );
    assert_eq!(
        report(host, Action::RemoveDirAll(Place::TemplatesScratch), Outcome::Done, Step::Finish),
        Some(naming_line("Export Templates installed to ", Place::TemplatesVersion))
    );
    assert_eq!(
        report(
            host,
            Action::CopyFile(Place::Artifact { release: true }, Place::InstalledLibrary),
            Outcome::Done,
            next
        ),
        Some(naming_line("Copied artifact to ", Place::InstalledLibrary))
    );
    assert_eq!(
        report(host, Action::Write(Document::Descriptor), Outcome::Done, Step::Finish),
        Some(naming_line("Generated .gdextension file at: ", Place::Descriptor))
    );
    assert_eq!(
        report(host, Action::CreateDirAll(Place::ExportDir), Outcome::Done, next),
        Some(plain_line("Exporting project for Windows Desktop..."))
    );
    assert_eq!(
        report(host, Action::Export, Outcome::ExitedOk, Step::Finish),
        Some(plain_line("Export complete! Find it at: builds/Windows Desktop/"))
    );
    assert_eq!(
        report(HostOs::Linux, Action::Export, Outcome::ExitedOk, Step::Finish),
        Some(plain_line("Export complete! Find it at: builds/Linux/"))
    );
    assert_eq!(
        report(HostOs::MacOs, Action::CreateDirAll(Place::ExportDir), Outcome::Done, next),
        Some(plain_line("Exporting project for macOS..."))
    );
}

#[test]
fn nothing_is_reported_of_work_that_went_badly() {
    let host = HostOs::Linux;
    assert_eq!(
        report(host, Action::MakeExecutable(Place::EngineBinary), Outcome::Failed, Step::Finish),
        None
    );
    assert_eq!(
        report(
            host,
            Action::Probe(Place::TemplatesVersion),
            Outcome::Absent,
            Step::Do(Action::Fetch(Archive::Templates))
        ),
        None
    );
    assert_eq!(
        report(host, Action::Export, Outcome::ExitedBad, Step::Fail(Failure::ExportFailed)),
        None
    );
    assert_eq!(
        report(host, Action::Write(Document::Descriptor), Outcome::Failed, Step::Finish),
        None
    );
    assert_eq!(
        report(host, Action::CopyFile(Place::GameDir, Place::BinDir), Outcome::Present, Step::Finish),
        None
    );
}

#[test]
fn the_scratch_is_reported_only_when_it_was_the_last_thing() {
    let clearing = Action::RemoveDirAll(Place::TemplatesScratch);
    let next = Step::Do(Action::Unpack(Archive::Templates, Place::TemplatesScratch));
    assert_eq!(report(HostOs::Linux, clearing, Outcome::Done, next), None);
    assert_eq!(
        report(HostOs::Linux, clearing, Outcome::Done, Step::Fail(Failure::Outside)),
        None
    );
    assert_eq!(
        report(HostOs::Linux, Action::RemoveDirAll(Place::BinDir), Outcome::Done, Step::Finish),
        None
    );
}

#[test]
fn other_work_is_not_reported() {
    for action in [
        Action::Probe(Place::BinDir),
        Action::CreateDir(Place::BinDir),
        Action::CreateDirAll(Place::GameDir),
        Action::Fetch(Archive::Editor),
        Action::Open(Archive::Editor),
        Action::Unpack(Archive::Editor, Place::BinDir),
        Action::Write(Document::Project),
        Action::Write(Document::ExportPresets),
        Action::Resolve(Place::GameDir),
        Action::Compile { release: false },
        Action::Launch { editor: true },
        Action::Unquarantine,
    ] {
        for outcome in [Outcome::Done, Outcome::Present, Outcome::ExitedOk] {
            assert_eq!(report(HostOs::Linux, action, outcome, Step::Finish), None);
        }
    }
}

#[test]
fn lines_of_a_package_run() {
    let host = HostOs::Linux;
    let mut session = Session::begin(host, Command::Package);
    let mut step = session.step();
    let mut lines: Vec<String> = Vec::new();
    let outcomes = vec![
        Outcome::ExitedOk,
        Outcome::Present,
        Outcome::Present,
        Outcome::Present,
        Outcome::Done,
        Outcome::Done,
        Outcome::Absent,
        Outcome::Done,
        Outcome::Present,
        Outcome::Done,
        Outcome::Done,
        Outcome::Done,
        Outcome::ExitedOk,
    ];
    for outcome in outcomes {
        let action = match step {
            Step::Do(action) => action,
            _ => panic!("the run ended early"),
        };
        for line in announce(host, action) {
            lines.push(line.text);
        }
        step = session.advance(outcome);
        if let Some(line) = report(host, action, outcome, step) {
            lines.push(line.text);
        }
    }
    assert_eq!(step, Step::Finish);
    assert_eq!(
        lines,
        vec![
            "Building Rust crates...",
            "Copied artifact to ",
            "Generated .gdextension file at: ",
            "Generating export_presets.cfg...",
            "Exporting project for Linux...",
            "Export complete! Find it at: builds/Linux/",
        ]
    );
}
