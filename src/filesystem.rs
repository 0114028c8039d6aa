use vstd::prelude::*;

verus! {

/// One entry of a directory listing.
pub struct FileEntry {
    pub name: String,
    pub path: String,
    pub is_dir: bool,
    /// The size in bytes; none for a directory or where it could not be read.
    pub size: Option<u64>,
}

impl FileEntry {
    /// An entry from what the listing found: `metadata` holds whether the
    /// entry is a directory and its length, when they could be read. Without
    /// them the entry counts as a file of unknown size.
    pub fn new(name: String, path: String, metadata: Option<(bool, u64)>) -> (r: FileEntry)
        ensures
            r.name@ == name@,
            r.path@ == path@,
            r.is_dir == (metadata matches Some((d, _)) && d),
            r.size == match metadata {
                Some((false, len)) => Some(len),
                _ => None::<u64>,
            },
    {
        let (is_dir, size) = match metadata {
            Some((d, len)) => if d {
                (true, None)
            } else {
                (false, Some(len))
            },
            None => (false, None),
        };
        FileEntry { name, path, is_dir, size }
    }
}

/// Relies on `std::path::Path::exists`: whether the path names something on
/// disk just now. Nothing is promised of the answer.
#[verifier::external_body]
pub(crate) fn probe_exists(path: &str) -> bool {
    std::path::Path::new(path).exists()
}

/// Whether `path` names an existing file or directory. The empty path names
/// nothing.
pub fn path_exists(path: String) -> (r: bool)
    ensures
        path@.len() == 0 ==> !r,
{
    if path.as_str().is_empty() {
        false
    } else {
        probe_exists(path.as_str())
    }
}

/// How a path is to be removed.
#[derive(Clone, Copy, PartialEq, Eq, Structural, Debug)]
pub enum Removal {
    /// A directory with everything under it.
    Tree,
    /// A directory that must already be empty.
    EmptyDir,
    File,
}

/// Picks the removal for a path: a directory goes with its contents only
/// when that is asked for; anything else is removed as a file.
pub fn removal_for(is_dir: bool, recursive: bool) -> (r: Removal)
    ensures
        r == if !is_dir {
            Removal::File
        } else if recursive {
            Removal::Tree
        } else {
            Removal::EmptyDir
        },
{
    if !is_dir {
        Removal::File
    } else if recursive {
        Removal::Tree
    } else {
        Removal::EmptyDir
    }
}

impl Removal {
    /// What a failed removal of this kind reports before its cause.
    pub fn failure_label(&self) -> (r: &'static str)
        ensures
            r@ == match *self {
                Removal::File => "Remove file failed"@,
                _ => "Remove dir failed"@,
            },
    {
        match self {
            Removal::File => "Remove file failed",
            _ => "Remove dir failed",
        }
    }
}

} // verus!
