//! The hosts the tool knows, and the names that depend on the host.

use vstd::prelude::*;

verus! {

/// The operating system the tool runs on.
///
/// `Other` stands for every host that is neither Windows, macOS nor Linux.
/// The engine is fetched for it as for Linux, but nothing can be built on it.
#[derive(Clone, Copy, Debug, PartialEq, Eq, Structural)]
pub enum HostOs {
    Windows,
    MacOs,
    Linux,
    Other,
}

/// The last part of the engine archive's file name on `host`.
pub open spec fn archive_suffix(host: HostOs) -> Seq<char> {
    match host {
        HostOs::Windows => "win64.exe.zip"@,
        HostOs::MacOs => "macos.universal.zip"@,
        HostOs::Linux | HostOs::Other => "linux.x86_64.zip"@,
    }
}

/// Where the engine executable lies inside the unpacked archive on `host`.
pub open spec fn engine_binary_path(host: HostOs) -> Seq<char> {
    match host {
        HostOs::Windows => "Godot_v4.6-stable_win64.exe"@,
        HostOs::MacOs => "Godot.app/Contents/MacOS/Godot"@,
        HostOs::Linux | HostOs::Other => "Godot_v4.6-stable_linux.x86_64"@,
    }
}

/// The name under which the engine exports for `host`.
pub open spec fn export_platform_name(host: HostOs) -> Seq<char> {
    match host {
        HostOs::Windows => "Windows Desktop"@,
        HostOs::MacOs => "macOS"@,
        HostOs::Linux | HostOs::Other => "Linux"@,
    }
}

/// What follows the exported file's base name on `host`: an extension with
/// its dot, or nothing.
pub open spec fn export_extension(host: HostOs) -> Seq<char> {
    match host {
        HostOs::Windows => ".exe"@,
        HostOs::MacOs => ".zip"@,
        HostOs::Linux | HostOs::Other => ""@,
    }
}

/// Whether the native library can be built and installed on `host`.
pub open spec fn can_build(host: HostOs) -> bool {
    host != HostOs::Other
}

/// The extension of the shared library the compiler leaves on `host`,
/// without a dot.
pub open spec fn library_extension(host: HostOs) -> Seq<char> {
    match host {
        HostOs::Windows => "dll"@,
        HostOs::MacOs => "dylib"@,
        HostOs::Linux | HostOs::Other => "so"@,
    }
}

/// The base name of the shared library the compiler leaves on `host`.
pub open spec fn library_stem(host: HostOs) -> Seq<char> {
    match host {
        HostOs::Windows => "game"@,
        HostOs::MacOs | HostOs::Linux | HostOs::Other => "libgame"@,
    }
}

/// The file name of the shared library on `host`: stem, dot, extension.
pub open spec fn library_file_name(host: HostOs) -> Seq<char> {
    library_stem(host) + "."@ + library_extension(host)
}

/// Whether `tail` is what `text` ends with.
pub open spec fn ends_with(text: Seq<char>, tail: Seq<char>) -> bool {
    tail.len() <= text.len() && text.subrange(text.len() - tail.len(), text.len() as int) == tail
}

/// The archive suffix and the executable's path inside the archive.
pub fn get_os_info(host: HostOs) -> (info: (&'static str, &'static str))
    ensures
        info.0@ == archive_suffix(host),
        info.1@ == engine_binary_path(host),
{
    match host {
        HostOs::Windows => ("win64.exe.zip", "Godot_v4.6-stable_win64.exe"),
        HostOs::MacOs => ("macos.universal.zip", "Godot.app/Contents/MacOS/Godot"),
        HostOs::Linux | HostOs::Other => ("linux.x86_64.zip", "Godot_v4.6-stable_linux.x86_64"),
    }
}

/// The export platform's name and the exported file's extension.
pub fn get_platform_export_name(host: HostOs) -> (names: (&'static str, &'static str))
    ensures
        names.0@ == export_platform_name(host),
        names.1@ == export_extension(host),
{
    match host {
        HostOs::Windows => ("Windows Desktop", ".exe"),
        HostOs::MacOs => ("macOS", ".zip"),
        HostOs::Linux | HostOs::Other => ("Linux", ""),
    }
}

/// The shared library's extension and base name, on a host that can build.
pub fn get_library_info(host: HostOs) -> (info: Option<(&'static str, &'static str)>)
    ensures
        info is Some <==> can_build(host),
        info matches Some(names) ==> names.0@ == library_extension(host) && names.1@
            == library_stem(host),
{
    match host {
        HostOs::Windows => Some(("dll", "game")),
        HostOs::Linux => Some(("so", "libgame")),
        HostOs::MacOs => Some(("dylib", "libgame")),
        HostOs::Other => None,
    }
}

/// The shared library's file name, on a host that can build.
pub fn library_file(host: HostOs) -> (name: Option<String>)
    ensures
        name is Some <==> can_build(host),
        name matches Some(n) ==> n@ == library_file_name(host),
{
    match get_library_info(host) {
        Some((extension, stem)) => {
            let mut name = String::from_str(stem);
            name.append(".");
            name.append(extension);
            Some(name)
        },
        None => None,
    }
}

/// Every host gets one of three fixed pairs of engine names, and one of
/// three fixed pairs of export names. The archive suffix is never empty,
/// holds no path separator and ends in `.zip`; the executable's path and the
/// export name are never empty; the export extension is empty or starts
/// with a dot.
pub proof fn lemma_host_names_are_fixed(host: HostOs)
    ensures
        (archive_suffix(host), engine_binary_path(host)) == (
            "win64.exe.zip"@,
            "Godot_v4.6-stable_win64.exe"@,
        ) || (archive_suffix(host), engine_binary_path(host)) == (
            "macos.universal.zip"@,
            "Godot.app/Contents/MacOS/Godot"@,
        ) || (archive_suffix(host), engine_binary_path(host)) == (
            "linux.x86_64.zip"@,
            "Godot_v4.6-stable_linux.x86_64"@,
        ),
        (export_platform_name(host), export_extension(host)) == ("Windows Desktop"@, ".exe"@) || (
            export_platform_name(host),
            export_extension(host),
        ) == ("macOS"@, ".zip"@) || (export_platform_name(host), export_extension(host)) == (
            "Linux"@,
            ""@,
        ),
        archive_suffix(host).len() > 0,
        ends_with(archive_suffix(host), ".zip"@),
        !archive_suffix(host).contains('/'),
        !archive_suffix(host).contains('\\'),
        engine_binary_path(host).len() > 0,
        export_platform_name(host).len() > 0,
        export_extension(host).len() == 0 || export_extension(host)[0] == '.',
{
    reveal_strlit("win64.exe.zip");
    reveal_strlit("macos.universal.zip");
    reveal_strlit("linux.x86_64.zip");
    reveal_strlit("Godot_v4.6-stable_win64.exe");
    reveal_strlit("Godot.app/Contents/MacOS/Godot");
    reveal_strlit("Godot_v4.6-stable_linux.x86_64");
    reveal_strlit("Windows Desktop");
    reveal_strlit("macOS");
    reveal_strlit("Linux");
    reveal_strlit(".exe");
    reveal_strlit(".zip");
    reveal_strlit("");
    let s = archive_suffix(host);
    assert(s.subrange(s.len() - 4, s.len() as int) =~= ".zip"@);
}

} // verus!
