//! The engine release the tool provisions, and where its archives are served.

use vstd::prelude::*;
use crate::platform::{archive_suffix, get_os_info, HostOs};

verus! {

/// The release tag of the engine, as it stands in download addresses.
pub const GODOT_VERSION: &'static str = "4.6-stable";

/// The full version, which names the directory the export templates live in.
pub const GODOT_VERSION_FULL: &'static str = "4.6.0-stable";

/// The address under which every release is served.
pub const BASE_URL: &'static str = "https://github.com/godotengine/godot/releases/download";

/// One of the two archives a release is provisioned from.
#[derive(Clone, Copy, Debug, PartialEq, Eq, Structural)]
pub enum Archive {
    /// The engine executable for the host.
    Editor,
    /// The export templates, the same for every host.
    Templates,
}

/// The file name of `archive` on the release server.
pub open spec fn archive_file_name(host: HostOs, archive: Archive) -> Seq<char> {
    "Godot_v"@ + GODOT_VERSION@ + "_"@ + match archive {
        Archive::Editor => archive_suffix(host),
        Archive::Templates => "export_templates.tpz"@,
    }
}

/// The address `archive` is fetched from: base, release tag, file name.
pub open spec fn archive_address(host: HostOs, archive: Archive) -> Seq<char> {
    BASE_URL@ + "/"@ + GODOT_VERSION@ + "/"@ + archive_file_name(host, archive)
}

/// A download to make: the address, and how many seconds it may take at
/// most, if there is a limit.
#[derive(Clone, Debug, PartialEq, Eq)]
pub struct Download {
    pub url: String,
    pub time_limit_secs: Option<u64>,
}

/// Builds the download address of `archive` for `host`.
pub fn archive_url(host: HostOs, archive: Archive) -> (url: String)
    ensures
        url@ == archive_address(host, archive),
{
    let mut url = String::from_str(BASE_URL);
    url.append("/");
    url.append(GODOT_VERSION);
    url.append("/");
    url.append("Godot_v");
    url.append(GODOT_VERSION);
    url.append("_");
    match archive {
        Archive::Editor => {
            let (suffix, _) = get_os_info(host);
            url.append(suffix);
        },
        Archive::Templates => {
            url.append("export_templates.tpz");
        },
    }
    url
}

/// The download of `archive` for `host`. It has no time limit: the
/// archives are large.
pub fn download_of(host: HostOs, archive: Archive) -> (download: Download)
    ensures
        download.url@ == archive_address(host, archive),
        download.time_limit_secs is None,
{
    Download { url: archive_url(host, archive), time_limit_secs: None }
}

} // verus!
