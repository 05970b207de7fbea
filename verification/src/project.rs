//! A user's project: its name, language, and where it lives on disk. The
//! location argument is resolved against the working directory handed in by
//! the caller; reading and writing the project file is done outside the
//! library.

use vstd::prelude::*;
use crate::text::join_path;
use crate::text::parent_of;
use crate::text::spec_join;
use crate::text::spec_parent;
use crate::text::str_eq;

verus! {

/// The languages a project can be written in.
#[derive(Debug, Clone, Copy, PartialEq, Eq, Structural)]
pub enum SupportedLanguages {
    Typescript,
}

/// How a project location argument is resolved against the directory the
/// command runs in: `.` is that directory, `..` its parent, and anything
/// else stands as given.
pub open spec fn spec_parse_path(path: Seq<char>, current_dir: Seq<char>) -> Seq<char> {
    if path == "."@ {
        current_dir
    } else if path == ".."@ {
        spec_parent(current_dir)
    } else {
        path
    }
}

/// Resolves a project location argument against the working directory.
pub fn parse_path(path: &str, current_dir: &str) -> (r: String)
    ensures
        r@ == spec_parse_path(path@, current_dir@),
{
    if str_eq(path, ".") {
        current_dir.to_owned()
    } else if str_eq(path, "..") {
        parent_of(current_dir)
    } else {
        path.to_owned()
    }
}

/// A user's project: a data-intensive application or service.
#[derive(Debug, Clone)]
pub struct Project {
    pub name: String,
    pub language: SupportedLanguages,
    pub location: String,
    pub app_folder: String,
}

impl Project {
    /// The location is the path argument resolved against the working
    /// directory; the app folder sits directly under it.
    pub fn new(name: String, language: SupportedLanguages, path: String, current_dir: &str) -> (p:
        Project)
        ensures
            p.name@ == name@,
            p.language == language,
            p.location@ == spec_parse_path(path@, current_dir@),
            p.app_folder@ == spec_join(spec_parse_path(path@, current_dir@), "app"@),
    {
        let location = parse_path(path.as_str(), current_dir);
        let app_folder = join_path(location.as_str(), "app");
        Project { name, language, location, app_folder }
    }
}

} // verus!
