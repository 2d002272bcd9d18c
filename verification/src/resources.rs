//! Where the generated names meet: the templates' directory, and the
//! library's path as the build installs it and as the descriptor names it.

use vstd::prelude::*;
use crate::documents::{
    document_text, gdextension_header, gdextension_text, library_entry, Document, CRATE_NAME,
};
use crate::layout::{location_of, templates_home, under, Anchor, Place};
use crate::platform::{can_build, HostOs};
use crate::release::GODOT_VERSION_FULL;

verus! {

/// Every host keeps its export templates in one of three fixed directories,
/// each a single non-empty path under a directory of the user's, and the
/// templates of this release in the directory named after the full version
/// inside it.
pub proof fn lemma_templates_home_is_fixed(host: HostOs)
    ensures
        templates_home(host) == under(
            Anchor::Home,
            "Library/Application Support/Godot/export_templates"@,
        ) || templates_home(host) == under(Anchor::Data, "Godot/export_templates"@)
            || templates_home(host) == under(Anchor::DataLocal, "godot/export_templates"@),
        templates_home(host).anchor != Anchor::WorkDir,
        templates_home(host).parts.len() == 1,
        templates_home(host).parts[0].len() > 0,
        location_of(host, Place::TemplatesHome) == templates_home(host),
        location_of(host, Place::TemplatesVersion) == templates_home(host).join(
            GODOT_VERSION_FULL@,
        ),
{
    reveal_strlit("Library/Application Support/Godot/export_templates");
    reveal_strlit("Godot/export_templates");
    reveal_strlit("godot/export_templates");
}

/// The parts of a location written as one path, with `/` between them.
pub open spec fn joined(parts: Seq<Seq<char>>) -> Seq<char>
    decreases parts.len(),
{
    if parts.len() == 0 {
        Seq::empty()
    } else if parts.len() == 1 {
        parts[0]
    } else {
        joined(parts.drop_last()) + "/"@ + parts.last()
    }
}

/// Whether `part` stands somewhere in `text`.
pub open spec fn occurs_in(text: Seq<char>, part: Seq<char>) -> bool {
    exists|i: int|
        0 <= i && i + part.len() <= text.len() && #[trigger] text.subrange(i, i + part.len())
            == part
}

/// The path of the installed library of `host` inside the project.
pub open spec fn installed_resource(host: HostOs) -> Seq<char> {
    match host {
        HostOs::Windows => "bin/game/windows/game.dll"@,
        HostOs::MacOs => "bin/game/macos/arm64/libgame.dylib"@,
        HostOs::Linux | HostOs::Other => "bin/game/linux/libgame.so"@,
    }
}

/// The key of the descriptor's line for `host` and one build mode.
pub open spec fn descriptor_key(host: HostOs, release: bool) -> Seq<char> {
    match host {
        HostOs::Windows => if release {
            "windows.release.x86_64"@
        } else {
            "windows.debug.x86_64"@
        },
        HostOs::MacOs => if release {
            "macos.release.arm64"@
        } else {
            "macos.debug.arm64"@
        },
        HostOs::Linux | HostOs::Other => if release {
            "linux.release.x86_64"@
        } else {
            "linux.debug.x86_64"@
        },
    }
}

/// The descriptor's line for `host` and one build mode.
pub open spec fn descriptor_line(host: HostOs, release: bool) -> Seq<char> {
    match host {
        HostOs::Windows => library_entry(
            descriptor_key(host, release),
            CRATE_NAME@,
            "windows"@,
            ""@,
            "dll"@,
        ),
        HostOs::MacOs => library_entry(
            descriptor_key(host, release),
            CRATE_NAME@,
            "macos/arm64"@,
            "lib"@,
            "dylib"@,
        ),
        HostOs::Linux | HostOs::Other => library_entry(
            descriptor_key(host, release),
            CRATE_NAME@,
            "linux"@,
            "lib"@,
            "so"@,
        ),
    }
}

/// A text holds what it ends with.
proof fn lemma_occurs_at_end(text: Seq<char>, part: Seq<char>)
    ensures
        occurs_in(text + part, part),
{
    let whole = text + part;
    let i = text.len() as int;
    assert(whole.subrange(i, i + part.len()) =~= part);
}

/// A text that grows at its end keeps what it holds.
proof fn lemma_occurs_still(text: Seq<char>, part: Seq<char>, more: Seq<char>)
    requires
        occurs_in(text, part),
    ensures
        occurs_in(text + more, part),
{
    let i = choose|i: int|
        0 <= i && i + part.len() <= text.len() && #[trigger] text.subrange(i, i + part.len())
            == part;
    assert((text + more).subrange(i, i + part.len()) =~= text.subrange(i, i + part.len()));
}

/// The descriptor holds the line of every host, for both build modes.
proof fn lemma_descriptor_holds_line(host: HostOs, release: bool)
    ensures
        occurs_in(gdextension_text(CRATE_NAME@), descriptor_line(host, release)),
{
    let name = CRATE_NAME@;
    let nl = "\n"@;
    let l1 = library_entry("linux.debug.x86_64"@, name, "linux"@, "lib"@, "so"@);
    let l2 = library_entry("linux.release.x86_64"@, name, "linux"@, "lib"@, "so"@);
    let m1 = library_entry("macos.debug.arm64"@, name, "macos/arm64"@, "lib"@, "dylib"@);
    let m2 = library_entry("macos.release.arm64"@, name, "macos/arm64"@, "lib"@, "dylib"@);
    let w1 = library_entry("windows.debug.x86_64"@, name, "windows"@, ""@, "dll"@);
    let w2 = library_entry("windows.release.x86_64"@, name, "windows"@, ""@, "dll"@);
    let t0 = gdextension_header() + nl;
    let t1 = t0 + l1 + nl;
    let t2 = t1 + l2 + nl;
    let t3 = t2 + m1 + nl;
    let t4 = t3 + m2 + nl;
    let t5 = t4 + w1 + nl;
    let line = descriptor_line(host, release);
    assert(gdextension_text(name) == t5 + w2);
    lemma_occurs_at_end(t0, l1);
    lemma_occurs_at_end(t1, l2);
    lemma_occurs_at_end(t2, m1);
    lemma_occurs_at_end(t3, m2);
    lemma_occurs_at_end(t4, w1);
    lemma_occurs_at_end(t5, w2);
    if line == l1 {
        lemma_occurs_still(t0 + l1, l1, nl);
        lemma_occurs_still(t1, l1, l2);
    }
    if line == l1 || line == l2 {
        lemma_occurs_still(t1 + l2, line, nl);
        lemma_occurs_still(t2, line, m1);
        lemma_occurs_still(t2 + m1, line, nl);
    }
    if line == m1 {
        lemma_occurs_still(t2 + m1, line, nl);
    }
    if line == l1 || line == l2 || line == m1 {
        lemma_occurs_still(t3, line, m2);
    }
    if line != w1 && line != w2 {
        lemma_occurs_still(t3 + m2, line, nl);
        lemma_occurs_still(t4, line, w1);
    }
    if line != w2 {
        lemma_occurs_still(t4 + w1, line, nl);
        lemma_occurs_still(t5, line, w2);
    }
}

/// The descriptor's line for `host` names the library's path inside the
/// project, after `res://`.
proof fn lemma_line_names_resource(host: HostOs, release: bool)
    ensures
        descriptor_line(host, release) == descriptor_key(host, release) + " = \"res://"@
            + installed_resource(host) + "\""@,
{
    reveal_strlit("game");
    reveal_strlit("/");
    reveal_strlit(".");
    reveal_strlit("");
    reveal_strlit("lib");
    reveal_strlit(" = \"res://bin/");
    reveal_strlit(" = \"res://");
    let key = descriptor_key(host, release);
    let tail = "\""@;
    match host {
        HostOs::Windows => {
            reveal_strlit("windows");
            reveal_strlit("dll");
            reveal_strlit("bin/game/windows/game.dll");
            assert(" = \"res://bin/"@ + "game"@ + "/"@ + "windows"@ + "/"@ + ""@ + "game"@ + "."@
                + "dll"@ =~= " = \"res://"@ + "bin/game/windows/game.dll"@);
        },
        HostOs::MacOs => {
            reveal_strlit("macos/arm64");
            reveal_strlit("dylib");
            reveal_strlit("bin/game/macos/arm64/libgame.dylib");
            assert(" = \"res://bin/"@ + "game"@ + "/"@ + "macos/arm64"@ + "/"@ + "lib"@ + "game"@
                + "."@ + "dylib"@ =~= " = \"res://"@ + "bin/game/macos/arm64/libgame.dylib"@);
        },
        _ => {
            reveal_strlit("linux");
            reveal_strlit("so");
            reveal_strlit("bin/game/linux/libgame.so");
            assert(" = \"res://bin/"@ + "game"@ + "/"@ + "linux"@ + "/"@ + "lib"@ + "game"@ + "."@
                + "so"@ =~= " = \"res://"@ + "bin/game/linux/libgame.so"@);
        },
    }
    let middle = " = \"res://"@ + installed_resource(host);
    assert(descriptor_line(host, release) =~= key + middle + tail);
    assert(key + middle + tail =~= key + " = \"res://"@ + installed_resource(host) + tail);
}

/// The library of `host` is installed inside the project at the path that
/// `installed_resource` gives.
proof fn lemma_library_is_installed_at_resource(host: HostOs)
    requires
        can_build(host),
    ensures
        joined(location_of(host, Place::InstalledLibrary).parts) == joined(
            location_of(host, Place::GameDir).parts,
        ) + "/"@ + installed_resource(host),
{
    reveal_strlit("game");
    reveal_strlit("game/bin/game");
    reveal_strlit("/");
    reveal_strlit(".");
    reveal_strlit("libgame");
    let parts = location_of(host, Place::InstalledLibrary).parts;
    let root = seq!["game/bin/game"@];
    reveal_with_fuel(joined, 5);
    match host {
        HostOs::Windows => {
            reveal_strlit("windows");
            reveal_strlit("dll");
            reveal_strlit("bin/game/windows/game.dll");
            assert(parts.drop_last() =~= root.push("windows"@));
            assert(parts.drop_last().drop_last() =~= root);
            assert(joined(parts) =~= "game"@ + "/"@ + "bin/game/windows/game.dll"@);
        },
        HostOs::MacOs => {
            reveal_strlit("macos");
            reveal_strlit("arm64");
            reveal_strlit("dylib");
            reveal_strlit("bin/game/macos/arm64/libgame.dylib");
            assert(parts.drop_last() =~= root.push("macos"@).push("arm64"@));
            assert(parts.drop_last().drop_last() =~= root.push("macos"@));
            assert(parts.drop_last().drop_last().drop_last() =~= root);
            assert(joined(parts) =~= "game"@ + "/"@ + "bin/game/macos/arm64/libgame.dylib"@);
        },
        _ => {
            reveal_strlit("linux");
            reveal_strlit("so");
            reveal_strlit("bin/game/linux/libgame.so");
            assert(parts.drop_last() =~= root.push("linux"@));
            assert(parts.drop_last().drop_last() =~= root);
            assert(joined(parts) =~= "game"@ + "/"@ + "bin/game/linux/libgame.so"@);
        },
    }
}

/// The descriptor points at the library where the build puts it: on every
/// host that can build, the library is installed inside the project at the
/// very path that the descriptor's lines for that host name, for a debug
/// build and for a release build alike.
pub proof fn lemma_descriptor_names_installed_library(host: HostOs, release: bool)
    requires
        can_build(host),
    ensures
        joined(location_of(host, Place::InstalledLibrary).parts) == joined(
            location_of(host, Place::GameDir).parts,
        ) + "/"@ + installed_resource(host),
        occurs_in(
            document_text(host, Document::Descriptor),
            descriptor_key(host, release) + " = \"res://"@ + installed_resource(host) + "\""@,
        ),
{
    lemma_library_is_installed_at_resource(host);
    lemma_descriptor_holds_line(host, release);
    lemma_line_names_resource(host, release);
}

} // verus!
