//! The path resolver: from a client's (directory, filename) pair to the one
//! place beneath the storage root where the object lives.

use crate::error::StoreError;
use vstd::prelude::*;

verus! {

/// The separator of path segments.
pub const SEPARATOR: char = '/';

/// Where an object lives: its logical name and its place in storage.
#[derive(Clone, Debug, PartialEq, Eq)]
pub struct Target {
    /// The file name, kept as the client gave it.
    pub filename: String,
    /// The logical directory: `/` or `/seg/`.
    pub directory: String,
    /// The logical path: directory, then file name.
    pub path: String,
    /// The storage path: root, then logical path.
    pub absolute: String,
}

/// The mathematical value of a [`Target`].
pub struct TargetView {
    pub filename: Seq<char>,
    pub directory: Seq<char>,
    pub path: Seq<char>,
    pub absolute: Seq<char>,
}

impl View for Target {
    type V = TargetView;

    open spec fn view(&self) -> TargetView {
        TargetView {
            filename: self.filename@,
            directory: self.directory@,
            path: self.path@,
            absolute: self.absolute@,
        }
    }
}

/// The text without the separators at its two ends.
pub open spec fn trimmed(s: Seq<char>) -> Seq<char>
    decreases s.len(),
{
    if s.len() > 0 && s.first() == SEPARATOR {
        trimmed(s.drop_first())
    } else if s.len() > 0 && s.last() == SEPARATOR {
        trimmed(s.drop_last())
    } else {
        s
    }
}

/// A text that holds no separator has nothing to trim.
pub proof fn lemma_nothing_to_trim(s: Seq<char>)
    requires
        !s.contains(SEPARATOR),
    ensures
        trimmed(s) == s,
{
    if s.len() > 0 {
        assert(s.contains(s.first()));
        assert(s.contains(s.last()));
    }
}

/// The logical directory of a request, or `None` where the directory is
/// refused. An absent directory and the marker `/` both mean the root. Any
/// other directory must be a single segment: one that holds a separator is
/// refused, and what is left is trimmed and wrapped as `/seg/`.
pub open spec fn logical_directory(directory: Option<Seq<char>>) -> Option<Seq<char>> {
    match directory {
        None => Some(seq![SEPARATOR]),
        Some(d) => if d == seq![SEPARATOR] {
            Some(d)
        } else if d.contains(SEPARATOR) {
            None
        } else {
            Some(seq![SEPARATOR] + trimmed(d) + seq![SEPARATOR])
        },
    }
}

/// What [`resolve`] returns.
pub open spec fn resolve_spec(
    root: Seq<char>,
    directory: Option<Seq<char>>,
    filename: Seq<char>,
) -> Result<TargetView, StoreError> {
    match logical_directory(directory) {
        None => Err(StoreError::BadRequest),
        Some(dir) => Ok(
            TargetView { filename, directory: dir, path: dir + filename, absolute: root + dir + filename },
        ),
    }
}

/// The storage path of the object that a download or a deletion names.
pub open spec fn storage_path_spec(root: Seq<char>, name: Seq<char>) -> Seq<char> {
    root + seq![SEPARATOR] + name
}

/// The view of a resolver's result.
pub open spec fn outcome_view(r: Result<Target, StoreError>) -> Result<TargetView, StoreError> {
    match r {
        Ok(t) => Ok(t@),
        Err(e) => Err(e),
    }
}

/// Whether the text holds a separator.
pub fn has_separator(s: &str) -> (found: bool)
    ensures
        found == s@.contains(SEPARATOR),
{
    let n: usize = s.unicode_len();
    let mut i: usize = 0;
    while i < n
        invariant
            n == s@.len(),
            i <= n,
            forall|j: int| 0 <= j < i ==> s@[j] != SEPARATOR,
        decreases n - i,
    {
        if s.get_char(i) == SEPARATOR {
            return true;
        }
        i += 1;
    }
    false
}

/// Whether the text is the root marker, a lone separator.
pub fn is_root_marker(s: &str) -> (yes: bool)
    ensures
        yes == (s@ == seq![SEPARATOR]),
{
    let yes = s.unicode_len() == 1 && s.get_char(0) == SEPARATOR;
    proof {
        if yes {
            assert(s@ =~= seq![SEPARATOR]);
        }
    }
    yes
}

/// Maps a (directory, filename) pair to its target beneath `root`.
///
/// A directory is refused with `BadRequest` exactly when it is not the root
/// marker and holds a separator. The file name becomes the last segment as it
/// stands. Nothing is created or touched.
pub fn resolve(root: &str, directory: &Option<String>, filename: &str) -> (r: Result<
    Target,
    StoreError,
>)
    ensures
        outcome_view(r) == resolve_spec(root@, crate::config::text_of(*directory), filename@),
{
    proof {
        reveal_strlit("/");
        assert("/"@ =~= seq![SEPARATOR]);
    }
    let mut dir = String::from_str("/");
    match directory {
        None => {},
        Some(d) => {
            if !is_root_marker(d.as_str()) {
                if has_separator(d.as_str()) {
                    return Err(StoreError::BadRequest);
                }
                proof {
                    lemma_nothing_to_trim(d@);
                }
                dir.append(d.as_str());
                dir.append("/");
            }
        },
    }
    let mut path = dir.clone();
    path.append(filename);
    let mut absolute = String::from_str(root);
    absolute.append(dir.as_str());
    absolute.append(filename);
    Ok(Target { filename: String::from_str(filename), directory: dir, path, absolute })
}

/// The storage path for the name that a download or a deletion gives: the
/// root, a separator, and the name as it stands.
pub fn storage_path(root: &str, name: &str) -> (path: String)
    ensures
        path@ == storage_path_spec(root@, name@),
{
    proof {
        reveal_strlit("/");
        assert("/"@ =~= seq![SEPARATOR]);
    }
    let mut path = String::from_str(root);
    path.append("/");
    path.append(name);
    path
}

} // verus!
