//! What the tool tells its user while it works.

use vstd::prelude::*;
use crate::documents::Document;
use crate::layout::Place;
use crate::platform::{export_platform_name, get_platform_export_name, HostOs};
use crate::protocol::{reply_to, Action, Outcome, Reply, Step};
use crate::release::{archive_address, archive_url, Archive};

verus! {

/// One line for the user: a text, and the place whose path ends the line,
/// if it names one. The path is shown in quotes, as the system writes it.
#[derive(Clone, Debug, PartialEq, Eq)]
pub struct Message {
    pub text: String,
    pub place: Option<Place>,
}

/// What a `Message` stands for.
pub ghost struct MessageView {
    pub text: Seq<char>,
    pub place: Option<Place>,
}

impl DeepView for Message {
    type V = MessageView;

    open spec fn deep_view(&self) -> MessageView {
        MessageView { text: self.text@, place: self.place }
    }
}

/// A line that names no place.
pub open spec fn plain(text: Seq<char>) -> MessageView {
    MessageView { text, place: None }
}

/// A line that ends with the path of `place`.
pub open spec fn naming(text: Seq<char>, place: Place) -> MessageView {
    MessageView { text, place: Some(place) }
}

/// The lines shown before `action` is carried out on `host`.
pub open spec fn announcements(host: HostOs, action: Action) -> Seq<MessageView> {
    match action {
        Action::Fetch(Archive::Editor) => seq![
            plain("Downloading Godot from: "@ + archive_address(host, Archive::Editor)),
        ],
        Action::Fetch(Archive::Templates) => seq![
            plain(
                "Downloading Export Templates from: "@ + archive_address(host, Archive::Templates),
            ),
        ],
        Action::Open(Archive::Editor) => seq![plain("Extracting..."@)],
        Action::Open(Archive::Templates) => seq![plain("Extracting templates..."@)],
        Action::Probe(Place::TemplatesVersion) => seq![
            naming("Godot Setup Complete at "@, Place::BinDir),
            plain("Checking Export Templates..."@),
        ],
        Action::Compile { .. } => seq![plain("Building Rust crates..."@)],
        Action::Write(Document::Project) => seq![
            plain("project.godot missing. Creating minimal project..."@),
        ],
        Action::Write(Document::ExportPresets) => seq![plain("Generating export_presets.cfg..."@)],
        Action::Launch { .. } => seq![plain("Launching Godot..."@)],
        _ => seq![],
    }
}

/// The line shown once `action` was answered by `outcome` on `host` and the
/// run asks for `next`, if that is worth a line: permissions that were set,
/// templates that are there or were installed, a library that was copied, a
/// descriptor that was written, an export that begins or has ended well.
pub open spec fn report_of(
    host: HostOs,
    action: Action,
    outcome: Outcome,
    next: Step,
) -> Option<MessageView> {
    if reply_to(action, outcome) != Reply::Yes {
        None
    } else {
        match action {
            Action::MakeExecutable(place) => Some(naming("Fixed permissions for: "@, place)),
            Action::Probe(Place::TemplatesVersion) => Some(
                naming("Templates already installed at "@, Place::TemplatesVersion),
            ),
            Action::RemoveDirAll(Place::TemplatesScratch) => if next == Step::Finish {
                Some(naming("Export Templates installed to "@, Place::TemplatesVersion))
            } else {
                None
            },
            Action::CopyFile(_, to) => Some(naming("Copied artifact to "@, to)),
            Action::Write(Document::Descriptor) => Some(
                naming("Generated .gdextension file at: "@, Place::Descriptor),
            ),
            Action::CreateDirAll(Place::ExportDir) => Some(
                plain("Exporting project for "@ + export_platform_name(host) + "..."@),
            ),
            Action::Export => Some(
                plain("Export complete! Find it at: builds/"@ + export_platform_name(host) + "/"@),
            ),
            _ => None,
        }
    }
}

impl Message {
    /// A line that names no place.
    pub fn plain(text: &str) -> (message: Message)
        ensures
            message.deep_view() == plain(text@),
    {
        Message { text: String::from_str(text), place: None }
    }

    /// A line that ends with the path of `place`.
    pub fn naming(text: &str, place: Place) -> (message: Message)
        ensures
            message.deep_view() == naming(text@, place),
    {
        Message { text: String::from_str(text), place: Some(place) }
    }
}

/// A sequence of one line.
fn one(message: Message) -> (lines: Vec<Message>)
    ensures
        lines.deep_view() == seq![message.deep_view()],
{
    let mut lines: Vec<Message> = Vec::new();
    lines.push(message);
    assert(lines.deep_view() =~= seq![message.deep_view()]);
    lines
}

/// The lines to show before `action` is carried out on `host`.
pub fn announce(host: HostOs, action: Action) -> (lines: Vec<Message>)
    ensures
        lines.deep_view() == announcements(host, action),
{
    match action {
        Action::Fetch(archive) => {
            let mut text = match archive {
                Archive::Editor => String::from_str("Downloading Godot from: "),
                Archive::Templates => String::from_str("Downloading Export Templates from: "),
            };
            let url = archive_url(host, archive);
            text.append(url.as_str());
            one(Message { text, place: None })
        },
        Action::Open(Archive::Editor) => one(Message::plain("Extracting...")),
        Action::Open(Archive::Templates) => one(Message::plain("Extracting templates...")),
        Action::Probe(Place::TemplatesVersion) => {
            let first = Message::naming("Godot Setup Complete at ", Place::BinDir);
            let second = Message::plain("Checking Export Templates...");
            let mut lines: Vec<Message> = Vec::new();
            lines.push(first);
            lines.push(second);
            assert(lines.deep_view() =~= announcements(host, action));
            lines
        },
        Action::Compile { .. } => one(Message::plain("Building Rust crates...")),
        Action::Write(Document::Project) => one(
            Message::plain("project.godot missing. Creating minimal project..."),
        ),
        Action::Write(Document::ExportPresets) => one(
            Message::plain("Generating export_presets.cfg..."),
        ),
        Action::Launch { .. } => one(Message::plain("Launching Godot...")),
        _ => {
            let lines: Vec<Message> = Vec::new();
            assert(lines.deep_view() =~= announcements(host, action));
            lines
        },
    }
}

/// The line to show once `action` was answered by `outcome` on `host` and
/// the run asks for `next`, if there is one.
pub fn report(host: HostOs, action: Action, outcome: Outcome, next: Step) -> (line: Option<Message>)
    ensures
        line.deep_view() == report_of(host, action, outcome, next),
{
    match action.reply(outcome) {
        Reply::Yes => {},
        _ => {
            return None;
        },
    }
    match action {
        Action::MakeExecutable(place) => Some(Message::naming("Fixed permissions for: ", place)),
        Action::Probe(Place::TemplatesVersion) => Some(
            Message::naming("Templates already installed at ", Place::TemplatesVersion),
        ),
        Action::RemoveDirAll(Place::TemplatesScratch) => {
            match next {
                Step::Finish => Some(
                    Message::naming("Export Templates installed to ", Place::TemplatesVersion),
                ),
                _ => None,
            }
        },
        Action::CopyFile(_, to) => Some(Message::naming("Copied artifact to ", to)),
        Action::Write(Document::Descriptor) => Some(
            Message::naming("Generated .gdextension file at: ", Place::Descriptor),
        ),
        Action::CreateDirAll(Place::ExportDir) => {
            let (platform, _) = get_platform_export_name(host);
            let mut text = String::from_str("Exporting project for ");
            text.append(platform);
            text.append("...");
            Some(Message { text, place: None })
        },
        Action::Export => {
            let (platform, _) = get_platform_export_name(host);
            let mut text = String::from_str("Export complete! Find it at: builds/");
            text.append(platform);
            text.append("/");
            Some(Message { text, place: None })
        },
        _ => None,
    }
}

} // verus!
