//! What holds of every entry and every file, over the contracts of the
//! deciding and rendering functions.
use vstd::prelude::*;
use vstd::utf8::*;
use crate::block::{base64_of, end_marker, file_block, rendered, start_marker};
use crate::path_filter::{accepts, extension_allowed, extension_of};
use crate::walk::{builds, entry_action, gitignore_lines, ignored_by, kept_globs, loaded_from, EntryAction, IgnoreRules};

verus! {

/// A file that is not ignored, is accepted by the allow-list and holds valid
/// UTF-8 is processed, and yields one block: its start marker with its path,
/// its bytes as they are, then its end marker with its path.
pub proof fn law_text_file_is_emitted(path: Seq<char>, bytes: Seq<u8>, allowed: Seq<String>, include_binary: bool)
    requires
        accepts(path, allowed),
        valid_utf8(bytes),
    ensures
        entry_action(path, false, false, allowed) == EntryAction::Process,
        rendered(path, bytes, include_binary) == Some(
            encode_utf8(start_marker(path)) + bytes + encode_utf8(end_marker(path)),
        ),
{
}

/// Under a non-empty allow-list, a file whose extension the list lacks, or
/// that has none, is never processed.
pub proof fn law_unlisted_extension_is_left_out(path: Seq<char>, ignored: bool, allowed: Seq<String>)
    requires
        allowed.len() > 0,
        match extension_of(path) {
            Some(ext) => !extension_allowed(ext, allowed),
            None => true,
        },
    ensures
        entry_action(path, false, ignored, allowed) == EntryAction::Skip,
{
}

/// An ignored entry is skipped: an ignored file is not processed and an
/// ignored directory is not descended into.
pub proof fn law_ignored_entry_is_skipped(path: Seq<char>, is_dir: bool, allowed: Seq<String>)
    ensures
        entry_action(path, is_dir, true, allowed) == EntryAction::Skip,
{
}

/// Bytes that are not UTF-8 yield no block while binary files are left out,
/// and, while they are included, the block whose contents are the marker
/// line and the base64 text of exactly those bytes.
pub proof fn law_binary_file(path: Seq<char>, bytes: Seq<u8>)
    requires
        !valid_utf8(bytes),
    ensures
        rendered(path, bytes, false) is None,
        rendered(path, bytes, true) == Some(
            file_block(path, encode_utf8("[Binary data encoded as base64]:\n"@ + base64_of(bytes))),
        ),
{
}

/// With an empty allow-list every file that is not ignored is processed.
pub proof fn law_empty_allow_list_takes_all(path: Seq<char>, allowed: Seq<String>)
    requires
        allowed.len() == 0,
    ensures
        entry_action(path, false, false, allowed) == EntryAction::Process,
{
}

/// Ignore rules loaded twice from the same root and the same `.gitignore`
/// lines (or twice without one) decide alike on every entry.
pub proof fn law_same_gitignore_decides_alike(
    a: IgnoreRules,
    b: IgnoreRules,
    root: Seq<char>,
    lines: Option<Seq<String>>,
    path: Seq<char>,
    is_dir: bool,
)
    requires
        loaded_from(a, root, lines),
        loaded_from(b, root, lines),
    ensures
        ignored_by(a.root(), a.globs(), path, is_dir) == ignored_by(b.root(), b.globs(), path, is_dir),
{
}

/// Ignore rules hold no glob, and so ignore nothing, where there is no
/// `.gitignore`, where it yields no line (one that cannot be read), and where
/// the globs of its lines cannot be built together.
pub proof fn law_unusable_gitignore_ignores_nothing(rules: IgnoreRules, root: Seq<char>, lines: Option<Seq<String>>)
    requires
        loaded_from(rules, root, lines),
        match lines {
            Some(l) => l.len() == 0 || !builds(kept_globs(gitignore_lines(l))),
            None => true,
        },
    ensures
        rules.globs().len() == 0,
{
    if let Some(l) = lines {
        if l.len() == 0 {
            assert(gitignore_lines(l).len() == 0);
        }
    }
}

} // verus!
