//! The files and directories the tool touches, and where each one lies.
//!
//! A place is named symbolically; `locate` turns the name into an anchor
//! directory and the parts that are joined onto it, one after the other.

use vstd::prelude::*;
use crate::platform::{
    can_build, engine_binary_path, export_extension, export_platform_name, get_os_info,
    get_platform_export_name, library_file, library_file_name, HostOs,
};
use crate::release::GODOT_VERSION_FULL;

verus! {

/// A directory that only the running system can name.
#[derive(Clone, Copy, Debug, PartialEq, Eq, Structural)]
pub enum Anchor {
    /// The directory the tool was started in.
    WorkDir,
    /// The user's home directory.
    Home,
    /// The user's directory for application data.
    Data,
    /// The user's directory for application data that stays on this machine.
    DataLocal,
}

/// Every file and directory the tool reads, creates or hands to a process.
#[derive(Clone, Copy, Debug, PartialEq, Eq, Structural)]
pub enum Place {
    /// The local cache the engine is unpacked into.
    BinDir,
    /// The engine executable inside the cache.
    EngineBinary,
    /// The application bundle inside the cache that carries the quarantine mark.
    EngineBundle,
    /// The directory the engine looks for export templates in.
    TemplatesHome,
    /// The templates of this release, inside `TemplatesHome`.
    TemplatesVersion,
    /// The scratch directory the templates archive is unpacked into.
    TemplatesScratch,
    /// The folder the templates archive holds, inside the scratch directory.
    TemplatesUnpacked,
    /// The shared library as the compiler leaves it.
    Artifact { release: bool },
    /// The directory of the project that holds the libraries of all hosts.
    LibraryRoot,
    /// The directory of the project that holds this host's library.
    LibraryDir,
    /// The shared library inside the project.
    InstalledLibrary,
    /// The project the engine is started on.
    GameDir,
    /// The file that tells the engine where the libraries are.
    Descriptor,
    /// The project's description.
    ProjectFile,
    /// The project's export configuration.
    PresetsFile,
    /// The directory that holds the exports for all platforms.
    BuildsDir,
    /// The directory that holds the export for this host's platform.
    ExportDir,
    /// The exported file.
    ExportOutput,
}

/// Where a place lies: an anchor, and the parts joined onto it in order.
/// A part may itself hold several names separated by `/`.
#[derive(Clone, Debug, PartialEq, Eq)]
pub struct Location {
    pub anchor: Anchor,
    pub parts: Vec<String>,
}

/// What a `Location` stands for.
pub ghost struct LocationView {
    pub anchor: Anchor,
    pub parts: Seq<Seq<char>>,
}

impl View for Location {
    type V = LocationView;

    open spec fn view(&self) -> LocationView {
        LocationView { anchor: self.anchor, parts: self.parts.deep_view() }
    }
}

impl LocationView {
    /// The location reached by joining `part` onto this one.
    pub open spec fn join(self, part: Seq<char>) -> LocationView {
        LocationView { anchor: self.anchor, parts: self.parts.push(part) }
    }
}

/// The location made of `anchor` and one part.
pub open spec fn under(anchor: Anchor, part: Seq<char>) -> LocationView {
    LocationView { anchor, parts: seq![part] }
}

/// The directory the compiler writes to: `release` or `debug`.
pub open spec fn profile_name(release: bool) -> Seq<char> {
    if release {
        "release"@
    } else {
        "debug"@
    }
}

/// The engine's standard directory for export templates on `host`.
pub open spec fn templates_home(host: HostOs) -> LocationView {
    match host {
        HostOs::MacOs => under(
            Anchor::Home,
            "Library/Application Support/Godot/export_templates"@,
        ),
        HostOs::Windows => under(Anchor::Data, "Godot/export_templates"@),
        HostOs::Linux | HostOs::Other => under(Anchor::DataLocal, "godot/export_templates"@),
    }
}

/// The directory of the project that holds the library of `host`.
pub open spec fn library_dir(host: HostOs) -> LocationView {
    let root = under(Anchor::WorkDir, "game/bin/game"@);
    match host {
        HostOs::Windows => root.join("windows"@),
        HostOs::MacOs => root.join("macos"@).join("arm64"@),
        HostOs::Linux | HostOs::Other => root.join("linux"@),
    }
}

/// Whether `place` has a location on `host`: all do, but those of the shared
/// library on a host that cannot build.
pub open spec fn has_location(host: HostOs, place: Place) -> bool {
    match place {
        Place::Artifact { .. } | Place::LibraryDir | Place::InstalledLibrary => can_build(host),
        _ => true,
    }
}

/// Where `place` lies on `host`. Meaningful where `has_location` holds.
pub open spec fn location_of(host: HostOs, place: Place) -> LocationView {
    match place {
        Place::BinDir => under(Anchor::WorkDir, ".godot_bin"@),
        Place::EngineBinary => under(Anchor::WorkDir, ".godot_bin"@).join(
            engine_binary_path(host),
        ),
        Place::EngineBundle => under(Anchor::WorkDir, ".godot_bin"@).join("Godot.app"@),
        Place::TemplatesHome => templates_home(host),
        Place::TemplatesVersion => templates_home(host).join(GODOT_VERSION_FULL@),
        Place::TemplatesScratch => under(Anchor::WorkDir, ".godot_bin/tmp_templates"@),
        Place::TemplatesUnpacked => under(Anchor::WorkDir, ".godot_bin/tmp_templates"@).join(
            "templates"@,
        ),
        Place::Artifact { release } => under(Anchor::WorkDir, "target"@).join(
            profile_name(release),
        ).join(library_file_name(host)),
        Place::LibraryRoot => under(Anchor::WorkDir, "game/bin/game"@),
        Place::LibraryDir => library_dir(host),
        Place::InstalledLibrary => library_dir(host).join(library_file_name(host)),
        Place::GameDir => under(Anchor::WorkDir, "game"@),
        Place::Descriptor => under(Anchor::WorkDir, "game"@).join("game.gdextension"@),
        Place::ProjectFile => under(Anchor::WorkDir, "game"@).join("project.godot"@),
        Place::PresetsFile => under(Anchor::WorkDir, "game"@).join("export_presets.cfg"@),
        Place::BuildsDir => under(Anchor::WorkDir, "builds"@),
        Place::ExportDir => under(Anchor::WorkDir, "builds"@).join(export_platform_name(host)),
        Place::ExportOutput => under(Anchor::WorkDir, "builds"@).join(
            export_platform_name(host),
        ).join("game"@ + export_extension(host)),
    }
}

impl Location {
    /// The location made of `anchor` and one part.
    pub fn new(anchor: Anchor, part: &str) -> (location: Location)
        ensures
            location@ == under(anchor, part@),
    {
        let mut parts: Vec<String> = Vec::new();
        parts.push(String::from_str(part));
        let location = Location { anchor, parts };
        assert(location@.parts =~= seq![part@]);
        location
    }

    /// The location reached by joining `part` onto this one.
    pub fn join(self, part: &str) -> (location: Location)
        ensures
            location@ == self@.join(part@),
    {
        let mut parts = self.parts;
        parts.push(String::from_str(part));
        let location = Location { anchor: self.anchor, parts };
        assert(location@.parts =~= self@.parts.push(part@));
        location
    }
}

/// The engine's standard directory for export templates on `host`.
pub fn get_godot_templates_dir(host: HostOs) -> (dir: Location)
    ensures
        dir@ == templates_home(host),
{
    match host {
        HostOs::MacOs => Location::new(
            Anchor::Home,
            "Library/Application Support/Godot/export_templates",
        ),
        HostOs::Windows => Location::new(Anchor::Data, "Godot/export_templates"),
        HostOs::Linux | HostOs::Other => Location::new(
            Anchor::DataLocal,
            "godot/export_templates",
        ),
    }
}

/// The directory of the project that holds the library of `host`.
fn library_folder(host: HostOs) -> (dir: Location)
    ensures
        dir@ == library_dir(host),
{
    let root = Location::new(Anchor::WorkDir, "game/bin/game");
    match host {
        HostOs::Windows => root.join("windows"),
        HostOs::MacOs => root.join("macos").join("arm64"),
        HostOs::Linux | HostOs::Other => root.join("linux"),
    }
}

/// The name of the directory the compiler writes to.
fn profile(release: bool) -> (name: &'static str)
    ensures
        name@ == profile_name(release),
{
    if release {
        "release"
    } else {
        "debug"
    }
}

/// Where a place of the shared library lies, on a host that can build.
fn locate_library(host: HostOs, place: Place) -> (found: Option<Location>)
    requires
        place is Artifact || place is LibraryDir || place is InstalledLibrary,
    ensures
        found is Some <==> has_location(host, place),
        found matches Some(location) ==> location@ == location_of(host, place),
{
    match library_file(host) {
        Some(file) => {
            match place {
                Place::Artifact { release } => Some(
                    Location::new(Anchor::WorkDir, "target").join(profile(release)).join(
                        file.as_str(),
                    ),
                ),
                Place::LibraryDir => Some(library_folder(host)),
                _ => Some(library_folder(host).join(file.as_str())),
            }
        },
        None => None,
    }
}

/// Where a place of the export lies.
fn locate_export(host: HostOs, place: Place) -> (location: Location)
    requires
        place is BuildsDir || place is ExportDir || place is ExportOutput,
    ensures
        location@ == location_of(host, place),
{
    let (platform, extension) = get_platform_export_name(host);
    let builds = Location::new(Anchor::WorkDir, "builds");
    match place {
        Place::BuildsDir => builds,
        Place::ExportDir => builds.join(platform),
        _ => {
            let mut file = String::from_str("game");
            file.append(extension);
            builds.join(platform).join(file.as_str())
        },
    }
}

/// Where `place` lies on `host`, or `None` for a place of the shared library
/// on a host that cannot build.
pub fn locate(host: HostOs, place: Place) -> (found: Option<Location>)
    ensures
        found is Some <==> has_location(host, place),
        found matches Some(location) ==> location@ == location_of(host, place),
{
    match place {
        Place::BinDir => Some(Location::new(Anchor::WorkDir, ".godot_bin")),
        Place::EngineBinary => {
            let (_, binary) = get_os_info(host);
            Some(Location::new(Anchor::WorkDir, ".godot_bin").join(binary))
        },
        Place::EngineBundle => Some(Location::new(Anchor::WorkDir, ".godot_bin").join("Godot.app")),
        Place::TemplatesHome => Some(get_godot_templates_dir(host)),
        Place::TemplatesVersion => Some(get_godot_templates_dir(host).join(GODOT_VERSION_FULL)),
        Place::TemplatesScratch => Some(Location::new(Anchor::WorkDir, ".godot_bin/tmp_templates")),
        Place::TemplatesUnpacked => Some(
            Location::new(Anchor::WorkDir, ".godot_bin/tmp_templates").join("templates"),
        ),
        Place::Artifact { .. } | Place::LibraryDir | Place::InstalledLibrary => locate_library(
            host,
            place,
        ),
        Place::LibraryRoot => Some(Location::new(Anchor::WorkDir, "game/bin/game")),
        Place::GameDir => Some(Location::new(Anchor::WorkDir, "game")),
        Place::Descriptor => Some(Location::new(Anchor::WorkDir, "game").join("game.gdextension")),
        Place::ProjectFile => Some(Location::new(Anchor::WorkDir, "game").join("project.godot")),
        Place::PresetsFile => Some(
            Location::new(Anchor::WorkDir, "game").join("export_presets.cfg"),
        ),
        Place::BuildsDir | Place::ExportDir | Place::ExportOutput => Some(
            locate_export(host, place),
        ),
    }
}

} // verus!
