//! How the templates are copied when they cannot be moved.

use vstd::prelude::*;
use fs_extra::dir::CopyOptions;

verus! {

/// The options of a directory copy, as `fs_extra` declares them: all six
/// fields are public there.
#[verifier::external_type_specification]
pub struct ExCopyOptions(CopyOptions);

/// `CopyOptions::new` of `fs_extra` sets every flag to `false`, the depth to
/// 0 (no limit) and the buffer to 64000 bytes.
pub assume_specification[ CopyOptions::new ]() -> (options: CopyOptions)
    ensures
        !options.overwrite,
        !options.skip_exist,
        options.buffer_size == 64000,
        !options.copy_inside,
        !options.content_only,
        options.depth == 0,
;

/// `CopyOptions::content_only` of `fs_extra` sets that one flag and leaves
/// the other fields as they are.
pub assume_specification[ CopyOptions::content_only ](
    options: CopyOptions,
    content_only: bool,
) -> (changed: CopyOptions)
    ensures
        changed.content_only == content_only,
        changed.overwrite == options.overwrite,
        changed.skip_exist == options.skip_exist,
        changed.buffer_size == options.buffer_size,
        changed.copy_inside == options.copy_inside,
        changed.depth == options.depth,
;

/// The options the templates are copied with: what the unpacked folder
/// holds goes into the directory of this release, without a folder of its
/// own; whatever is there already is neither replaced nor skipped, so that
/// a file in the way fails the copy; all levels are copied.
pub fn templates_copy_options() -> (options: CopyOptions)
    ensures
        options.content_only,
        !options.overwrite,
        !options.skip_exist,
        !options.copy_inside,
        options.depth == 0,
        options.buffer_size == 64000,
{
    CopyOptions::new().content_only(true)
}

} // verus!
