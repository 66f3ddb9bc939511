//! The file a buffer belongs to.
use std::path::PathBuf;
use vstd::prelude::*;

verus! {

/// `std::path::PathBuf`, declared so that a buffer can carry its file's path;
/// Verus sees nothing inside it.
#[verifier::external_type_specification]
#[verifier::external_body]
pub struct ExPathBuf(PathBuf);

/// Calls `Path::file_name` on `path`, then `OsStr::to_str` on the name and
/// copies it into a `String` (the name's type lives in `std::ffi`, which the
/// library does not name, so the three calls share this wrapper).  Nothing is
/// promised of the result: how a path splits into components depends on the
/// platform.
#[verifier::external_body]
fn file_name_of(path: &PathBuf) -> Option<String> {
    match path.file_name() {
        Some(name) => match name.to_str() {
            Some(text) => Some(text.to_string()),
            None => None,
        },
        None => None,
    }
}

/// The name shown for a document that has no file name.
pub open spec fn no_name() -> Seq<char> {
    seq!['[', 'N', 'o', ' ', 'N', 'a', 'm', 'e', ']']
}

/// The file a buffer was loaded from and is saved to, if any.
pub struct FileInfo {
    pub path: Option<PathBuf>,
}

impl FileInfo {
    /// No file.
    pub fn none() -> (f: FileInfo)
        ensures
            f.path is None,
    {
        FileInfo { path: None }
    }

    /// The file at `path`.
    pub fn from_path(path: PathBuf) -> (f: FileInfo)
        ensures
            f.path == Some(path),
    {
        FileInfo { path: Some(path) }
    }

    /// The name shown for the file: the last component of its path, or
    /// `[No Name]` when there is no path or it has no name that is valid
    /// text.
    pub fn to_string(&self) -> (name: String)
        ensures
            self.path is None ==> name@ == no_name(),
    {
        let name = match &self.path {
            Some(path) => file_name_of(path),
            None => None,
        };
        Self::shown_name(name)
    }

    /// The name shown for a file whose path ends in `file_name`, if it has
    /// a name: that name, else `[No Name]`.
    pub fn shown_name(file_name: Option<String>) -> (name: String)
        ensures
            name@ == (match file_name {
                Some(n) => n@,
                None => no_name(),
            }),
    {
        match file_name {
            Some(name) => name,
            None => Self::no_name_string(),
        }
    }

    /// The text `[No Name]`.
    fn no_name_string() -> (s: String)
        ensures
            s@ == no_name(),
    {
        let mut s = String::new();
        s.append("[No Name]");
        proof {
            reveal_strlit("[No Name]");
        }
        assert(s@ =~= no_name());
        s
    }
}

} // verus!
