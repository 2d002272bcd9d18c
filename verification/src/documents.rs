//! The text of the three files the tool generates.

use vstd::prelude::*;
use crate::layout::Place;
use crate::platform::{export_platform_name, get_platform_export_name, HostOs};

verus! {

/// The name of the native library's crate, which names the descriptor too.
pub const CRATE_NAME: &'static str = "game";

/// The name the generated project carries.
pub const PROJECT_NAME: &'static str = "My Rust Game";

/// One line of the descriptor's table: a key made of system, build mode and
/// architecture, and the library's path inside the project.
pub open spec fn library_entry(
    key: Seq<char>,
    name: Seq<char>,
    folder: Seq<char>,
    prefix: Seq<char>,
    extension: Seq<char>,
) -> Seq<char> {
    key + " = \"res://bin/"@ + name + "/"@ + folder + "/"@ + prefix + name + "."@ + extension
        + "\""@
}

/// What stands in the descriptor above the table.
pub open spec fn gdextension_header() -> Seq<char> {
    "[configuration]\nentry_symbol = \"gdext_rust_init\"\ncompatibility_minimum = \"4.1\"\n\n[libraries]"@
}

/// The descriptor for the crate `name`: the entry symbol, the oldest engine
/// it works with, and one line for each system and build mode. It neither
/// starts nor ends with a line break.
pub open spec fn gdextension_text(name: Seq<char>) -> Seq<char> {
    gdextension_header() + "\n"@ + library_entry(
        "linux.debug.x86_64"@,
        name,
        "linux"@,
        "lib"@,
        "so"@,
    ) + "\n"@ + library_entry("linux.release.x86_64"@, name, "linux"@, "lib"@, "so"@) + "\n"@
        + library_entry("macos.debug.arm64"@, name, "macos/arm64"@, "lib"@, "dylib"@) + "\n"@
        + library_entry("macos.release.arm64"@, name, "macos/arm64"@, "lib"@, "dylib"@) + "\n"@
        + library_entry("windows.debug.x86_64"@, name, "windows"@, ""@, "dll"@) + "\n"@
        + library_entry("windows.release.x86_64"@, name, "windows"@, ""@, "dll"@)
}

/// The descriptor's file name for the crate `name`.
pub open spec fn gdextension_file_name(name: Seq<char>) -> Seq<char> {
    name + ".gdextension"@
}

/// The description of a project called `name`, ending with a line break.
pub open spec fn project_text(name: Seq<char>) -> Seq<char> {
    "; Engine configuration file.\nconfig_version=5\n\n[application]\nconfig/name=\""@ + name
        + "\"\nconfig/features=PackedStringArray(\"4.6\", \"Forward Plus\")\nconfig/icon=\"res://icon.svg\"\n\n[dotnet]\nproject/assembly_name=\""@
        + name + "\"\n"@
}

/// An export configuration with one preset for `platform`, which exports
/// every resource to `../builds/<platform>/game`. It neither starts nor ends
/// with a line break.
pub open spec fn export_presets_text(platform: Seq<char>) -> Seq<char> {
    "[preset.0]\n\nname=\""@ + platform + "\"\nplatform=\""@ + platform
        + "\"\nrunnable=true\ncustom_features=\"\"\nexport_filter=\"all_resources\"\ninclude_filter=\"\"\nexclude_filter=\"\"\nexport_path=\"../builds/"@
        + platform + "/game\"\npatch_list=PackedStringArray()"@
}

/// A file to be written: its name inside the project and its text.
#[derive(Clone, Debug, PartialEq, Eq)]
pub struct GeneratedFile {
    pub name: String,
    pub content: String,
}

/// Appends a line break and one line of the descriptor's table.
fn append_library_entry(
    text: &mut String,
    key: &str,
    name: &str,
    folder: &str,
    prefix: &str,
    extension: &str,
)
    ensures
        final(text)@ == old(text)@ + "\n"@ + library_entry(
            key@,
            name@,
            folder@,
            prefix@,
            extension@,
        ),
{
    text.append("\n");
    text.append(key);
    text.append(" = \"res://bin/");
    text.append(name);
    text.append("/");
    text.append(folder);
    text.append("/");
    text.append(prefix);
    text.append(name);
    text.append(".");
    text.append(extension);
    text.append("\"");
    assert(text@ =~= old(text)@ + "\n"@ + library_entry(
        key@,
        name@,
        folder@,
        prefix@,
        extension@,
    ));
}

/// The descriptor for the crate `crate_name`: its file name and its text.
/// The text names the library of every system, whichever host this is.
pub fn generate_gdextension_file(crate_name: &str) -> (file: GeneratedFile)
    ensures
        file.name@ == gdextension_file_name(crate_name@),
        file.content@ == gdextension_text(crate_name@),
{
    let mut name = String::from_str(crate_name);
    name.append(".gdextension");
    let mut content = String::from_str(
        "[configuration]\nentry_symbol = \"gdext_rust_init\"\ncompatibility_minimum = \"4.1\"\n\n[libraries]",
    );
    append_library_entry(&mut content, "linux.debug.x86_64", crate_name, "linux", "lib", "so");
    append_library_entry(&mut content, "linux.release.x86_64", crate_name, "linux", "lib", "so");
    append_library_entry(
        &mut content,
        "macos.debug.arm64",
        crate_name,
        "macos/arm64",
        "lib",
        "dylib",
    );
    append_library_entry(
        &mut content,
        "macos.release.arm64",
        crate_name,
        "macos/arm64",
        "lib",
        "dylib",
    );
    append_library_entry(&mut content, "windows.debug.x86_64", crate_name, "windows", "", "dll");
    append_library_entry(&mut content, "windows.release.x86_64", crate_name, "windows", "", "dll");
    GeneratedFile { name, content }
}

/// The description of a project called `name`.
pub fn generate_project_file(name: &str) -> (content: String)
    ensures
        content@ == project_text(name@),
{
    let mut content = String::from_str(
        "; Engine configuration file.\nconfig_version=5\n\n[application]\nconfig/name=\"",
    );
    content.append(name);
    content.append(
        "\"\nconfig/features=PackedStringArray(\"4.6\", \"Forward Plus\")\nconfig/icon=\"res://icon.svg\"\n\n[dotnet]\nproject/assembly_name=\"",
    );
    content.append(name);
    content.append("\"\n");
    content
}

/// An export configuration with one preset for `platform`.
pub fn generate_export_presets(platform: &str) -> (content: String)
    ensures
        content@ == export_presets_text(platform@),
{
    let mut content = String::from_str("[preset.0]\n\nname=\"");
    content.append(platform);
    content.append("\"\nplatform=\"");
    content.append(platform);
    content.append(
        "\"\nrunnable=true\ncustom_features=\"\"\nexport_filter=\"all_resources\"\ninclude_filter=\"\"\nexclude_filter=\"\"\nexport_path=\"../builds/",
    );
    content.append(platform);
    content.append("/game\"\npatch_list=PackedStringArray()");
    content
}

/// One of the three files the tool generates.
#[derive(Clone, Copy, Debug, PartialEq, Eq, Structural)]
pub enum Document {
    /// Tells the engine where the native libraries are.
    Descriptor,
    /// Describes the project, so that the engine opens it without asking.
    Project,
    /// Configures the export for the host's platform.
    ExportPresets,
}

/// The place `document` is written to.
pub open spec fn document_place(document: Document) -> Place {
    match document {
        Document::Descriptor => Place::Descriptor,
        Document::Project => Place::ProjectFile,
        Document::ExportPresets => Place::PresetsFile,
    }
}

/// The text of `document` on `host`. Only the export configuration depends
/// on the host.
pub open spec fn document_text(host: HostOs, document: Document) -> Seq<char> {
    match document {
        Document::Descriptor => gdextension_text(CRATE_NAME@),
        Document::Project => project_text(PROJECT_NAME@),
        Document::ExportPresets => export_presets_text(export_platform_name(host)),
    }
}

impl Document {
    /// The place the document is written to.
    pub fn place(self) -> (place: Place)
        ensures
            place == document_place(self),
    {
        match self {
            Document::Descriptor => Place::Descriptor,
            Document::Project => Place::ProjectFile,
            Document::ExportPresets => Place::PresetsFile,
        }
    }

    /// The text the document holds on `host`.
    pub fn text(self, host: HostOs) -> (text: String)
        ensures
            text@ == document_text(host, self),
    {
        match self {
            Document::Descriptor => generate_gdextension_file(CRATE_NAME).content,
            Document::Project => generate_project_file(PROJECT_NAME),
            Document::ExportPresets => {
                let (platform, _) = get_platform_export_name(host);
                generate_export_presets(platform)
            },
        }
    }
}

} // verus!
