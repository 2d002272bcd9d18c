use xtask::documents::{
    generate_export_presets, generate_gdextension_file, generate_project_file, Document,
    CRATE_NAME, PROJECT_NAME,
};
use xtask::layout::{get_godot_templates_dir, locate, Anchor, Location, Place};
use xtask::platform::{
    get_library_info, get_os_info, get_platform_export_name, library_file, HostOs,
};
use xtask::release::{archive_url, Archive, BASE_URL, GODOT_VERSION, GODOT_VERSION_FULL};

fn every_host() -> Vec<HostOs> {
    vec![HostOs::Windows, HostOs::MacOs, HostOs::Linux, HostOs::Other]
}

fn place_at(anchor: Anchor, parts: Vec<&str>) -> Option<Location> {
    Some(Location { anchor, parts: parts.into_iter().map(String::from).collect() })
}

#[test]
fn os_info_is_one_of_three_pairs() {
    assert_eq!(get_os_info(HostOs::Windows), ("win64.exe.zip", "Godot_v4.6-stable_win64.exe"));
    assert_eq!(
        get_os_info(HostOs::MacOs),
        ("macos.universal.zip", "Godot.app/Contents/MacOS/Godot")
    );
    assert_eq!(get_os_info(HostOs::Linux), ("linux.x86_64.zip", "Godot_v4.6-stable_linux.x86_64"));
    assert_eq!(get_os_info(HostOs::Other), get_os_info(HostOs::Linux));
}

#[test]
fn os_info_is_well_formed_on_every_host() {
    for host in every_host() {
        let (suffix, binary) = get_os_info(host);
        assert!(!suffix.is_empty());
        assert!(suffix.ends_with(".zip"));
        assert!(!suffix.contains('/'));
        assert!(!suffix.contains('\\'));
        assert!(!binary.is_empty());
    }
}

#[test]
fn export_names_are_one_of_three_pairs() {
    assert_eq!(get_platform_export_name(HostOs::Windows), ("Windows Desktop", ".exe"));
    assert_eq!(get_platform_export_name(HostOs::MacOs), ("macOS", ".zip"));
    assert_eq!(get_platform_export_name(HostOs::Linux), ("Linux", ""));
    assert_eq!(get_platform_export_name(HostOs::Other), ("Linux", ""));
    for host in every_host() {
        let (name, extension) = get_platform_export_name(host);
        assert!(!name.is_empty());
        assert!(extension.is_empty() || extension.starts_with('.'));
    }
}

#[test]
fn library_names_per_host() {
    assert_eq!(get_library_info(HostOs::Windows), Some(("dll", "game")));
    assert_eq!(get_library_info(HostOs::Linux), Some(("so", "libgame")));
    assert_eq!(get_library_info(HostOs::MacOs), Some(("dylib", "libgame")));
    assert_eq!(get_library_info(HostOs::Other), None);
    assert_eq!(library_file(HostOs::Windows), Some(String::from("game.dll")));
    assert_eq!(library_file(HostOs::Linux), Some(String::from("libgame.so")));
    assert_eq!(library_file(HostOs::MacOs), Some(String::from("libgame.dylib")));
    assert_eq!(library_file(HostOs::Other), None);
}

#[test]
fn release_constants() {
    assert_eq!(GODOT_VERSION, "4.6-stable");
    assert_eq!(GODOT_VERSION_FULL, "4.6.0-stable");
    assert_eq!(BASE_URL, "https://github.com/godotengine/godot/releases/download");
}

#[test]
fn editor_archive_addresses() {
    assert_eq!(
        archive_url(HostOs::Windows, Archive::Editor),
        "https://github.com/godotengine/godot/releases/download/4.6-stable/Godot_v4.6-stable_win64.exe.zip"
    );
    assert_eq!(
        archive_url(HostOs::MacOs, Archive::Editor),
        "https://github.com/godotengine/godot/releases/download/4.6-stable/Godot_v4.6-stable_macos.universal.zip"
    );
    assert_eq!(
        archive_url(HostOs::Linux, Archive::Editor),
        "https://github.com/godotengine/godot/releases/download/4.6-stable/Godot_v4.6-stable_linux.x86_64.zip"
    );
    assert_eq!(
        archive_url(HostOs::Other, Archive::Editor),
        archive_url(HostOs::Linux, Archive::Editor)
    );
}

#[test]
fn templates_archive_address_is_the_same_everywhere() {
    for host in every_host() {
        assert_eq!(
            archive_url(host, Archive::Templates),
            "https://github.com/godotengine/godot/releases/download/4.6-stable/Godot_v4.6-stable_export_templates.tpz"
        );
    }
}

#[test]
fn archive_address_follows_the_formula() {
    for host in every_host() {
        let (suffix, _) = get_os_info(host);
        assert_eq!(
            archive_url(host, Archive::Editor),
            format!("{BASE_URL}/{GODOT_VERSION}/Godot_v{GODOT_VERSION}_{suffix}")
        );
    }
}

#[test]
fn templates_dir_per_host() {
    assert_eq!(
        Some(get_godot_templates_dir(HostOs::MacOs)),
        place_at(Anchor::Home, vec!["Library/Application Support/Godot/export_templates"])
    );
    assert_eq!(
        Some(get_godot_templates_dir(HostOs::Windows)),
        place_at(Anchor::Data, vec!["Godot/export_templates"])
    );
    assert_eq!(
        Some(get_godot_templates_dir(HostOs::Linux)),
        place_at(Anchor::DataLocal, vec!["godot/export_templates"])
    );
    assert_eq!(get_godot_templates_dir(HostOs::Other), get_godot_templates_dir(HostOs::Linux));
}

#[test]
fn location_new_and_join() {
    let base = Location::new(Anchor::WorkDir, "a");
    assert_eq!(base.anchor, Anchor::WorkDir);
    assert_eq!(base.parts, vec![String::from("a")]);
    let longer = base.join("b/c").join("d");
    assert_eq!(Some(longer), place_at(Anchor::WorkDir, vec!["a", "b/c", "d"]));
}

#[test]
fn places_of_the_cache() {
    let host = HostOs::Linux;
    assert_eq!(locate(host, Place::BinDir), place_at(Anchor::WorkDir, vec![".godot_bin"]));
    assert_eq!(
        locate(host, Place::EngineBinary),
        place_at(Anchor::WorkDir, vec![".godot_bin", "Godot_v4.6-stable_linux.x86_64"])
    );
    assert_eq!(
        locate(HostOs::Windows, Place::EngineBinary),
        place_at(Anchor::WorkDir, vec![".godot_bin", "Godot_v4.6-stable_win64.exe"])
    );
    assert_eq!(
        locate(HostOs::MacOs, Place::EngineBinary),
        place_at(Anchor::WorkDir, vec![".godot_bin", "Godot.app/Contents/MacOS/Godot"])
    );
    assert_eq!(
        locate(HostOs::MacOs, Place::EngineBundle),
        place_at(Anchor::WorkDir, vec![".godot_bin", "Godot.app"])
    );
    assert_eq!(
        locate(host, Place::TemplatesScratch),
        place_at(Anchor::WorkDir, vec![".godot_bin/tmp_templates"])
    );
    assert_eq!(
        locate(host, Place::TemplatesUnpacked),
        place_at(Anchor::WorkDir, vec![".godot_bin/tmp_templates", "templates"])
    );
}

#[test]
fn places_of_the_templates() {
    assert_eq!(
        locate(HostOs::Linux, Place::TemplatesHome),
        place_at(Anchor::DataLocal, vec!["godot/export_templates"])
    );
    assert_eq!(
        locate(HostOs::Linux, Place::TemplatesVersion),
        place_at(Anchor::DataLocal, vec!["godot/export_templates", "4.6.0-stable"])
    );
    assert_eq!(
        locate(HostOs::Windows, Place::TemplatesVersion),
        place_at(Anchor::Data, vec!["Godot/export_templates", "4.6.0-stable"])
    );
    assert_eq!(
        locate(HostOs::MacOs, Place::TemplatesVersion),
        place_at(
            Anchor::Home,
            vec!["Library/Application Support/Godot/export_templates", "4.6.0-stable"]
        )
    );
}

#[test]
fn places_of_the_library() {
    assert_eq!(
        locate(HostOs::Linux, Place::Artifact { release: false }),
        place_at(Anchor::WorkDir, vec!["target", "debug", "libgame.so"])
    );
    assert_eq!(
        locate(HostOs::Linux, Place::Artifact { release: true }),
        place_at(Anchor::WorkDir, vec!["target", "release", "libgame.so"])
    );
    assert_eq!(
        locate(HostOs::Windows, Place::Artifact { release: true }),
        place_at(Anchor::WorkDir, vec!["target", "release", "game.dll"])
    );
    assert_eq!(
        locate(HostOs::MacOs, Place::Artifact { release: false }),
        place_at(Anchor::WorkDir, vec!["target", "debug", "libgame.dylib"])
    );
    for host in every_host() {
        assert_eq!(
            locate(host, Place::LibraryRoot),
            place_at(Anchor::WorkDir, vec!["game/bin/game"])
        );
    }
    assert_eq!(
        locate(HostOs::Windows, Place::LibraryDir),
        place_at(Anchor::WorkDir, vec!["game/bin/game", "windows"])
    );
    assert_eq!(
        locate(HostOs::Linux, Place::LibraryDir),
        place_at(Anchor::WorkDir, vec!["game/bin/game", "linux"])
    );
    assert_eq!(
        locate(HostOs::MacOs, Place::LibraryDir),
        place_at(Anchor::WorkDir, vec!["game/bin/game", "macos", "arm64"])
    );
    assert_eq!(
        locate(HostOs::Windows, Place::InstalledLibrary),
        place_at(Anchor::WorkDir, vec!["game/bin/game", "windows", "game.dll"])
    );
    assert_eq!(
        locate(HostOs::Linux, Place::InstalledLibrary),
        place_at(Anchor::WorkDir, vec!["game/bin/game", "linux", "libgame.so"])
    );
    assert_eq!(
        locate(HostOs::MacOs, Place::InstalledLibrary),
        place_at(Anchor::WorkDir, vec!["game/bin/game", "macos", "arm64", "libgame.dylib"])
    );
}

#[test]
fn library_places_have_no_location_where_nothing_builds() {
    assert_eq!(locate(HostOs::Other, Place::Artifact { release: false }), None);
    assert_eq!(locate(HostOs::Other, Place::Artifact { release: true }), None);
    assert_eq!(locate(HostOs::Other, Place::LibraryDir), None);
    assert_eq!(locate(HostOs::Other, Place::InstalledLibrary), None);
    assert!(locate(HostOs::Other, Place::LibraryRoot).is_some());
}

#[test]
fn places_of_the_project_and_the_export() {
    for host in every_host() {
        assert_eq!(locate(host, Place::GameDir), place_at(Anchor::WorkDir, vec!["game"]));
        assert_eq!(
            locate(host, Place::Descriptor),
            place_at(Anchor::WorkDir, vec!["game", "game.gdextension"])
        );
        assert_eq!(
            locate(host, Place::ProjectFile),
            place_at(Anchor::WorkDir, vec!["game", "project.godot"])
        );
        assert_eq!(
            locate(host, Place::PresetsFile),
            place_at(Anchor::WorkDir, vec!["game", "export_presets.cfg"])
        );
        assert_eq!(locate(host, Place::BuildsDir), place_at(Anchor::WorkDir, vec!["builds"]));
    }
    assert_eq!(
        locate(HostOs::Windows, Place::ExportDir),
        place_at(Anchor::WorkDir, vec!["builds", "Windows Desktop"])
    );
    assert_eq!(
        locate(HostOs::Windows, Place::ExportOutput),
        place_at(Anchor::WorkDir, vec!["builds", "Windows Desktop", "game.exe"])
    );
    assert_eq!(
        locate(HostOs::MacOs, Place::ExportOutput),
        place_at(Anchor::WorkDir, vec!["builds", "macOS", "game.zip"])
    );
    assert_eq!(
        locate(HostOs::Linux, Place::ExportDir),
        place_at(Anchor::WorkDir, vec!["builds", "Linux"])
    );
    assert_eq!(
        locate(HostOs::Linux, Place::ExportOutput),
        place_at(Anchor::WorkDir, vec!["builds", "Linux", "game"])
    );
}

#[test]
fn descriptor_for_the_game_crate() {
    let file = generate_gdextension_file("game");
    assert_eq!(file.name, "game.gdextension");
    let expected = "[configuration]\n\
entry_symbol = \"gdext_rust_init\"\n\
compatibility_minimum = \"4.1\"\n\
\n\
[libraries]\n\
linux.debug.x86_64 = \"res://bin/game/linux/libgame.so\"\n\
linux.release.x86_64 = \"res://bin/game/linux/libgame.so\"\n\
macos.debug.arm64 = \"res://bin/game/macos/arm64/libgame.dylib\"\n\
macos.release.arm64 = \"res://bin/game/macos/arm64/libgame.dylib\"\n\
windows.debug.x86_64 = \"res://bin/game/windows/game.dll\"\n\
windows.release.x86_64 = \"res://bin/game/windows/game.dll\"";
    assert_eq!(file.content, expected);
}

#[test]
fn descriptor_follows_the_template() {
    for crate_name in ["game", "other_crate", ""] {
        let content = format!(
            r#"
[configuration]
entry_symbol = "gdext_rust_init"
compatibility_minimum = "4.1"

[libraries]
linux.debug.x86_64 = "res://bin/{crate_name}/linux/lib{crate_name}.so"
linux.release.x86_64 = "res://bin/{crate_name}/linux/lib{crate_name}.so"
macos.debug.arm64 = "res://bin/{crate_name}/macos/arm64/lib{crate_name}.dylib"
macos.release.arm64 = "res://bin/{crate_name}/macos/arm64/lib{crate_name}.dylib"
windows.debug.x86_64 = "res://bin/{crate_name}/windows/{crate_name}.dll"
windows.release.x86_64 = "res://bin/{crate_name}/windows/{crate_name}.dll"
"#
        );
        let file = generate_gdextension_file(crate_name);
        assert_eq!(file.content, content.trim());
        assert_eq!(file.name, format!("{}.gdextension", crate_name));
    }
}

#[test]
fn descriptor_names_where_each_host_installs() {
    let content = generate_gdextension_file(CRATE_NAME).content;
    for host in [HostOs::Windows, HostOs::MacOs, HostOs::Linux] {
        let installed = locate(host, Place::InstalledLibrary).unwrap();
        let inside_project = installed.parts[1..].join("/");
        let entry = format!("\"res://bin/game/{}\"", inside_project);
        assert_eq!(installed.parts[0], "game/bin/game");
        assert_eq!(content.matches(entry.as_str()).count(), 2);
    }
}

#[test]
fn project_file_text_is_fixed() {
    let expected = r#"; Engine configuration file.
config_version=5

[application]
config/name="My Rust Game"
config/features=PackedStringArray("4.6", "Forward Plus")
config/icon="res://icon.svg"

[dotnet]
project/assembly_name="My Rust Game"
"#;
    assert_eq!(PROJECT_NAME, "My Rust Game");
    assert_eq!(generate_project_file(PROJECT_NAME), expected);
    assert_eq!(Document::Project.text(HostOs::Linux), expected);
    assert_eq!(Document::Project.text(HostOs::Windows), expected);
    assert!(generate_project_file("Demo").contains("config/name=\"Demo\"\n"));
    assert!(generate_project_file("Demo").ends_with("project/assembly_name=\"Demo\"\n"));
}

#[test]
fn export_presets_follow_the_template() {
    for host in every_host() {
        let (platform_name, _) = get_platform_export_name(host);
        let content = format!(
            r#"
[preset.0]

name="{platform_name}"
platform="{platform_name}"
runnable=true
custom_features=""
export_filter="all_resources"
include_filter=""
exclude_filter=""
export_path="../builds/{platform_name}/game"
patch_list=PackedStringArray()
"#
        );
        assert_eq!(generate_export_presets(platform_name), content.trim());
        assert_eq!(Document::ExportPresets.text(host), content.trim());
    }
}

#[test]
fn export_presets_for_windows() {
    let expected = "[preset.0]\n\nname=\"Windows Desktop\"\nplatform=\"Windows Desktop\"\nrunnable=true\ncustom_features=\"\"\nexport_filter=\"all_resources\"\ninclude_filter=\"\"\nexclude_filter=\"\"\nexport_path=\"../builds/Windows Desktop/game\"\npatch_list=PackedStringArray()";
    assert_eq!(Document::ExportPresets.text(HostOs::Windows), expected);
}

#[test]
fn documents_and_their_places() {
    assert_eq!(Document::Descriptor.place(), Place::Descriptor);
    assert_eq!(Document::Project.place(), Place::ProjectFile);
    assert_eq!(Document::ExportPresets.place(), Place::PresetsFile);
    for host in every_host() {
        assert_eq!(
            Document::Descriptor.text(host),
            generate_gdextension_file("game").content
        );
    }
}

#[test]
fn downloads_have_no_time_limit() {
    for host in every_host() {
        for archive in [Archive::Editor, Archive::Templates] {
            let download = xtask::release::download_of(host, archive);
            assert_eq!(download.url, archive_url(host, archive));
            assert_eq!(download.time_limit_secs, None);
        }
    }
}

#[test]
fn executable_mode_is_rwxr_xr_x() {
    assert_eq!(xtask::setup::EXECUTABLE_MODE, 0o755);
    assert_eq!(xtask::setup::EXECUTABLE_MODE, 493);
}
