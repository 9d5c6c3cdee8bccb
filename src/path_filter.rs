//! Which files are kept, by the extension of their name.
//!
//! Paths are text whose components are separated by `/`.
use vstd::prelude::*;
use vstd::utf8::is_ascii_chars;

verus! {

/// The index just after the last `c` in `s`, or 0 where `s` holds no `c`.
pub open spec fn after_last(s: Seq<char>, c: char) -> int
    decreases s.len(),
{
    if s.len() == 0 {
        0
    } else if s.last() == c {
        s.len() as int
    } else {
        after_last(s.drop_last(), c)
    }
}

/// The name of the entry a path leads to: what follows its last `/`.
pub open spec fn file_name(path: Seq<char>) -> Seq<char> {
    path.subrange(after_last(path, '/'), path.len() as int)
}

/// The extension of a path's name: what follows the last `.` of the name.
/// A name without a dot, one whose only dot leads it (`.gitignore`) and the
/// name `..` have none. A name ending in a dot has the empty extension.
pub open spec fn extension_of(path: Seq<char>) -> Option<Seq<char>> {
    let name = file_name(path);
    let k = after_last(name, '.');
    if name =~= seq!['.', '.'] || k <= 1 {
        None
    } else {
        Some(name.subrange(k, name.len() as int))
    }
}

/// What `str::to_lowercase` makes of a string.
pub uninterp spec fn lower_of(s: Seq<char>) -> Seq<char>;

/// Whether `ext`, lowercased, is one of the allowed extensions, lowercased.
pub open spec fn extension_allowed(ext: Seq<char>, allowed: Seq<String>) -> bool {
    exists|i: int| 0 <= i < allowed.len() && lower_of(#[trigger] allowed[i]@) == lower_of(ext)
}

/// Whether a file at `path` is kept under the allow-list `allowed`: every
/// file where the list is empty, else those whose extension it holds.
pub open spec fn accepts(path: Seq<char>, allowed: Seq<String>) -> bool {
    allowed.len() == 0 || match extension_of(path) {
        Some(ext) => extension_allowed(ext, allowed),
        None => false,
    }
}

/// `s` with each ASCII capital letter turned into its small letter.
pub open spec fn ascii_lower(s: Seq<char>) -> Seq<char> {
    Seq::new(
        s.len(),
        |i: int|
            if 'A' <= s[i] && s[i] <= 'Z' {
                ((s[i] as u8) + 32) as u8 as char
            } else {
                s[i]
            },
    )
}

/// Relies on `str::to_lowercase`: the result depends on the characters alone,
/// and on ASCII text only the capital letters change, each into its small
/// letter.
#[verifier::external_body]
fn lowercase(s: &str) -> (r: String)
    ensures
        r@ == lower_of(s@),
        is_ascii_chars(s@) ==> r@ == ascii_lower(s@),
{
    s.to_lowercase()
}

proof fn lemma_after_last(s: Seq<char>, c: char, k: int)
    requires
        0 <= k <= s.len(),
        k == 0 || s[k - 1] == c,
        forall|j: int| k <= j < s.len() ==> s[j] != c,
    ensures
        after_last(s, c) == k,
    decreases s.len(),
{
    if s.len() > 0 && k < s.len() {
        lemma_after_last(s.drop_last(), c, k);
    }
}

/// The index just after the last `c` in `s`.
fn find_after_last(s: &str, c: char) -> (k: usize)
    ensures
        k == after_last(s@, c),
        k <= s@.len(),
        k > 0 ==> s@[k - 1] == c,
{
    let n = s.unicode_len();
    let mut i: usize = n;
    while i > 0 && s.get_char(i - 1) != c
        invariant
            i <= n,
            n == s@.len(),
            forall|j: int| i <= j < n ==> s@[j] != c,
        decreases i,
    {
        i = i - 1;
    }
    proof {
        lemma_after_last(s@, c, i as int);
    }
    i
}

/// The extension of the name that `path` leads to, as `extension_of` gives it.
pub fn extension(path: &str) -> (r: Option<String>)
    ensures
        extension_of(path@) == match r {
            Some(e) => Some(e@),
            None => None,
        },
{
    let start = find_after_last(path, '/');
    let name = path.substring_char(start, path.unicode_len());
    assert(name@ =~= file_name(path@));
    let k = find_after_last(name, '.');
    let is_dot_dot = name.unicode_len() == 2 && k == 2 && name.get_char(0) == '.';
    proof {
        if name@ =~= seq!['.', '.'] {
            assert(name@[1] == '.');
            lemma_after_last(name@, '.', 2);
        }
        if is_dot_dot {
            assert(name@ =~= seq!['.', '.']);
        }
    }
    if is_dot_dot || k <= 1 {
        None
    } else {
        let ext = name.substring_char(k, name.unicode_len());
        Some(ext.to_owned())
    }
}

/// Whether `ext` is one of the entries of `list`, as they are: the test
/// that the allow-list makes once both sides are lowercased.
pub fn contains_extension(ext: &String, list: &[String]) -> (r: bool)
    ensures
        r == exists|i: int| 0 <= i < list@.len() && #[trigger] list@[i]@ == ext@,
{
    let mut i: usize = 0;
    while i < list.len()
        invariant
            i <= list@.len(),
            forall|j: int| 0 <= j < i ==> #[trigger] list@[j]@ != ext@,
        decreases list@.len() - i,
    {
        if list[i] == *ext {
            return true;
        }
        i = i + 1;
    }
    false
}

/// Each entry of `list`, lowercased.
fn lowercase_all(list: &[String]) -> (r: Vec<String>)
    ensures
        r@.len() == list@.len(),
        forall|i: int| 0 <= i < list@.len() ==> #[trigger] r@[i]@ == lower_of(list@[i]@),
{
    let mut r: Vec<String> = Vec::new();
    let mut i: usize = 0;
    while i < list.len()
        invariant
            i <= list@.len(),
            r@.len() == i,
            forall|j: int| 0 <= j < i ==> #[trigger] r@[j]@ == lower_of(list@[j]@),
        decreases list@.len() - i,
    {
        r.push(lowercase(list[i].as_str()));
        i = i + 1;
    }
    r
}

/// Whether the file at `file_path` is kept under the allow-list: every file
/// where the list is empty, else one whose extension, lowercased, equals an
/// entry of the list, lowercased. A file without an extension is then left out.
pub fn should_process_file(file_path: &str, allowed_extensions: &[String]) -> (r: bool)
    ensures
        r == accepts(file_path@, allowed_extensions@),
{
    if allowed_extensions.len() == 0 {
        return true;
    }
    match extension(file_path) {
        None => false,
        Some(ext) => {
            let wanted = lowercase(ext.as_str());
            let lowered = lowercase_all(allowed_extensions);
            let found = contains_extension(&wanted, lowered.as_slice());
            proof {
                if found {
                    let i = choose|i: int| 0 <= i < lowered@.len() && #[trigger] lowered@[i]@ == wanted@;
                    assert(lower_of(allowed_extensions@[i]@) == lower_of(ext@));
                }
                if extension_allowed(ext@, allowed_extensions@) {
                    let i = choose|i: int|
                        0 <= i < allowed_extensions@.len() && lower_of(#[trigger] allowed_extensions@[i]@) == lower_of(ext@);
                    assert(lowered@[i]@ == wanted@);
                }
            }
            found
        },
    }
}

} // verus!
