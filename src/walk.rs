//! What becomes of each entry met while walking the tree: the `.gitignore`
//! rules of the root, then the allow-list of extensions.
use vstd::prelude::*;
use vstd::string::*;
use ignore::gitignore::{Gitignore, GitignoreBuilder};
use crate::path_filter::{accepts, should_process_file};

verus! {

#[verifier::external_type_specification]
#[verifier::external_body]
pub struct ExGitignore(Gitignore);

#[verifier::external_type_specification]
#[verifier::external_body]
pub struct ExGitignoreBuilder(GitignoreBuilder);

/// The root of a matcher, as its `root` field holds it: paths are matched
/// relative to it.
pub uninterp spec fn root_of(g: Gitignore) -> Seq<char>;

/// The globs of a matcher, as the `original` text of each entry of its
/// `globs` field, in order.
pub uninterp spec fn globs_of(g: Gitignore) -> Seq<Seq<char>>;

/// The root of a builder, as its `root` field holds it.
pub uninterp spec fn builder_root(b: GitignoreBuilder) -> Seq<char>;

/// The globs added to a builder, as the `original` text of each entry of its
/// `globs` field, in order.
pub uninterp spec fn builder_globs(b: GitignoreBuilder) -> Seq<Seq<char>>;

/// What `GitignoreBuilder::add_line`, on a builder with its default options,
/// keeps of one line: the line without its trailing whitespace, or nothing
/// for a comment, a blank line or a glob that does not parse.
pub uninterp spec fn kept_glob(line: Seq<char>) -> Option<Seq<char>>;

/// Whether `GitignoreBuilder::build` succeeds on a builder with its default
/// options that holds these globs.
pub uninterp spec fn builds(globs: Seq<Seq<char>>) -> bool;

/// Whether `Gitignore::matched` says that a matcher with this root and these
/// globs, built with the default options, ignores the entry at `path`.
pub uninterp spec fn ignored_by(root: Seq<char>, globs: Seq<Seq<char>>, path: Seq<char>, is_dir: bool) -> bool;

/// The root that `GitignoreBuilder::new` keeps of the path `root` (a leading
/// `./` is dropped, in a way that depends on the platform's path rules).
pub uninterp spec fn kept_root(root: Seq<char>) -> Seq<char>;

/// Relies on `GitignoreBuilder::new`: a builder with no globs, whose root
/// depends on `root` alone.
#[verifier::external_body]
fn new_builder(root: &str) -> (b: GitignoreBuilder)
    ensures
        builder_globs(b) == Seq::<Seq<char>>::empty(),
        builder_root(b) == kept_root(root@),
{
    GitignoreBuilder::new(root)
}

/// Relies on `GitignoreBuilder::add_line`: the glob that it keeps of the line,
/// if any, is pushed onto the builder's globs; the root stays. An empty line
/// and a comment line (one that starts with `#`) add nothing.
#[verifier::external_body]
fn add_pattern(builder: &mut GitignoreBuilder, line: &str)
    ensures
        builder_root(*final(builder)) == builder_root(*old(builder)),
        builder_globs(*final(builder)) == match kept_glob(line@) {
            Some(g) => builder_globs(*old(builder)).push(g),
            None => builder_globs(*old(builder)),
        },
        line@.len() == 0 || line@[0] == '#' ==> builder_globs(*final(builder)) == builder_globs(*old(builder)),
{
    let _ = builder.add_line(None, line);
}

/// Relies on `GitignoreBuilder::build`: where it succeeds, a matcher with the
/// builder's root and globs.
#[verifier::external_body]
fn build_matcher(builder: &GitignoreBuilder) -> (r: Option<Gitignore>)
    ensures
        r is Some == builds(builder_globs(*builder)),
        r matches Some(g) ==> root_of(g) == builder_root(*builder) && globs_of(g) == builder_globs(*builder),
{
    builder.build().ok()
}

/// Relies on `Gitignore::empty`: a matcher with no globs and an empty root.
#[verifier::external_body]
fn empty_matcher() -> (g: Gitignore)
    ensures
        globs_of(g) == Seq::<Seq<char>>::empty(),
        root_of(g) == Seq::<char>::empty(),
{
    Gitignore::empty()
}

/// Relies on `Gitignore::matched` and `Match::is_ignore`: whether the last
/// glob that matches `path` ignores it; a matcher with no globs matches
/// nothing.
#[verifier::external_body]
fn matched_as_ignored(rules: &Gitignore, path: &str, is_dir: bool) -> (r: bool)
    ensures
        r == ignored_by(root_of(*rules), globs_of(*rules), path@, is_dir),
        globs_of(*rules).len() == 0 ==> !r,
{
    rules.matched(path, is_dir).is_ignore()
}

/// The ignore rules of a walk: a matcher that `load_gitignore` built.
pub struct IgnoreRules {
    matcher: Gitignore,
}

impl IgnoreRules {
    /// The directory that the rules' paths are relative to.
    pub closed spec fn root(&self) -> Seq<char> {
        root_of(self.matcher)
    }

    /// The globs of the rules, in the order of their lines.
    pub closed spec fn globs(&self) -> Seq<Seq<char>> {
        globs_of(self.matcher)
    }
}

/// The byte order mark that may open a `.gitignore` file.
pub const BOM: char = '\u{feff}';

/// `s` without the byte order marks that open it.
pub open spec fn without_bom(s: Seq<char>) -> Seq<char>
    decreases s.len(),
{
    if s.len() > 0 && s[0] == BOM {
        without_bom(s.drop_first())
    } else {
        s
    }
}

proof fn lemma_without_bom(s: Seq<char>, k: int)
    requires
        0 <= k <= s.len(),
        forall|j: int| 0 <= j < k ==> s[j] == BOM,
        k == s.len() || s[k] != BOM,
    ensures
        without_bom(s) == s.subrange(k, s.len() as int),
    decreases k,
{
    if k == 0 {
        assert(s.subrange(0, s.len() as int) =~= s);
    } else {
        lemma_without_bom(s.drop_first(), k - 1);
        assert(s.drop_first().subrange(k - 1, s.len() - 1) =~= s.subrange(k, s.len() as int));
    }
}

/// `line` without the byte order marks that open it.
fn strip_bom(line: &str) -> (r: &str)
    ensures
        r@ == without_bom(line@),
{
    let n = line.unicode_len();
    let mut k: usize = 0;
    while k < n && line.get_char(k) == BOM
        invariant
            k <= n,
            n == line@.len(),
            forall|j: int| 0 <= j < k ==> line@[j] == BOM,
        decreases n - k,
    {
        k = k + 1;
    }
    proof {
        lemma_without_bom(line@, k as int);
    }
    line.substring_char(k, n)
}

/// The lines of a `.gitignore` file as they are read for globs: the first
/// without the byte order marks that open it.
pub open spec fn gitignore_lines(lines: Seq<String>) -> Seq<Seq<char>> {
    Seq::new(lines.len(), |i: int| if i == 0 { without_bom(lines[i]@) } else { lines[i]@ })
}

/// The globs kept of some lines, in order.
pub open spec fn kept_globs(lines: Seq<Seq<char>>) -> Seq<Seq<char>>
    decreases lines.len(),
{
    if lines.len() == 0 {
        Seq::empty()
    } else {
        let rest = kept_globs(lines.drop_last());
        match kept_glob(lines.last()) {
            Some(g) => rest.push(g),
            None => rest,
        }
    }
}

/// Whether `rules` are those of the `.gitignore` file at `root` with the
/// given lines (`None`: no such file): the globs kept of its lines at its
/// root where they build; else, and without a file, no globs at all.
pub open spec fn loaded_from(rules: IgnoreRules, root: Seq<char>, lines: Option<Seq<String>>) -> bool {
    match lines {
        Some(l) if builds(kept_globs(gitignore_lines(l))) => {
            &&& rules.globs() == kept_globs(gitignore_lines(l))
            &&& rules.root() == kept_root(root)
        },
        _ => {
            &&& rules.globs() == Seq::<Seq<char>>::empty()
            &&& rules.root() == Seq::<char>::empty()
        },
    }
}

/// The ignore rules of the `.gitignore` file at `root`, given by its lines,
/// or rules that ignore nothing where there is no such file (`None`) or its
/// globs cannot be built together. Byte order marks that open the first
/// line are dropped.
pub fn load_gitignore(root: &str, lines: Option<&Vec<String>>) -> (r: IgnoreRules)
    ensures
        loaded_from(
            r,
            root@,
            match lines {
                Some(l) => Some(l@),
                None => None,
            },
        ),
{
    match lines {
        None => IgnoreRules { matcher: empty_matcher() },
        Some(lines) => {
            let ghost all = gitignore_lines(lines@);
            let mut builder = new_builder(root);
            let mut i: usize = 0;
            while i < lines.len()
                invariant
                    i <= lines@.len(),
                    all == gitignore_lines(lines@),
                    builder_root(builder) == kept_root(root@),
                    builder_globs(builder) == kept_globs(all.subrange(0, i as int)),
                decreases lines@.len() - i,
            {
                let line = if i == 0 {
                    strip_bom(lines[i].as_str())
                } else {
                    lines[i].as_str()
                };
                assert(line@ == all[i as int]);
                add_pattern(&mut builder, line);
                assert(all.subrange(0, i + 1).drop_last() =~= all.subrange(0, i as int));
                i = i + 1;
            }
            assert(all.subrange(0, lines@.len() as int) =~= all);
            match build_matcher(&builder) {
                Some(matcher) => IgnoreRules { matcher },
                None => IgnoreRules { matcher: empty_matcher() },
            }
        },
    }
}

/// What becomes of an entry met while walking the tree.
#[derive(PartialEq, Eq, Structural, Debug, Clone, Copy)]
pub enum EntryAction {
    /// Left out, and not descended into.
    Skip,
    /// A directory to walk.
    Descend,
    /// A file whose block goes to the output.
    Process,
}

/// What becomes of the entry at `path`, given whether it is a directory and
/// whether the ignore rules ignore it: an ignored entry is skipped, whatever
/// it is; a directory is walked; a file is processed where the allow-list
/// accepts it, and skipped otherwise.
pub open spec fn entry_action(path: Seq<char>, is_dir: bool, ignored: bool, allowed: Seq<String>) -> EntryAction {
    if ignored {
        EntryAction::Skip
    } else if is_dir {
        EntryAction::Descend
    } else if accepts(path, allowed) {
        EntryAction::Process
    } else {
        EntryAction::Skip
    }
}

/// What becomes of the entry at `file_path`, once the ignore rules have said
/// whether they ignore it.
pub fn decide_entry(file_path: &str, is_dir: bool, ignored: bool, allowed_extensions: &[String]) -> (r: EntryAction)
    ensures
        r == entry_action(file_path@, is_dir, ignored, allowed_extensions@),
{
    if ignored {
        EntryAction::Skip
    } else if is_dir {
        EntryAction::Descend
    } else if should_process_file(file_path, allowed_extensions) {
        EntryAction::Process
    } else {
        EntryAction::Skip
    }
}

/// What becomes of the entry at `file_path` under the ignore rules `rules`
/// and the allow-list: the outcome of `entry_action` for the rules' verdict
/// on it; rules without globs ignore nothing.
pub fn classify_entry(rules: &IgnoreRules, file_path: &str, is_dir: bool, allowed_extensions: &[String]) -> (r: EntryAction)
    ensures
        r == entry_action(
            file_path@,
            is_dir,
            ignored_by(rules.root(), rules.globs(), file_path@, is_dir),
            allowed_extensions@,
        ),
        rules.globs().len() == 0 ==> r == entry_action(file_path@, is_dir, false, allowed_extensions@),
{
    let ignored = matched_as_ignored(&rules.matcher, file_path, is_dir);
    decide_entry(file_path, is_dir, ignored, allowed_extensions)
}

} // verus!
