//! What the watcher needs to know before its loop starts: which
//! directories of a project it watches, and with which status it gives up.

use vstd::prelude::*;

verus! {

/// A failure at startup that ends the process.
#[derive(Clone, Copy, Debug, PartialEq, Eq, Structural)]
pub enum Fatal {
    /// The notification source could not be initialised.
    WatchInit,
    /// No project root was found.
    NotAProject,
}

/// The exit status that belongs to each fatal failure.
pub open spec fn status_of(failure: Fatal) -> int {
    match failure {
        Fatal::WatchInit => 1,
        Fatal::NotAProject => 64,
    }
}

impl Fatal {
    /// The exit status with which the process ends on this failure.
    pub fn exit_code(&self) -> (code: i32)
        ensures
            code == status_of(*self),
            code != 0,
    {
        match self {
            Fatal::WatchInit => 1,
            Fatal::NotAProject => 64,
        }
    }
}

/// The directories below a project root that are watched.
pub open spec fn watched() -> Seq<Seq<char>> {
    seq!["src"@, "tests"@, "benches"@]
}

/// The directories below a project root that are watched, in the order in
/// which the watches are set up.
pub fn watched_directories() -> (dirs: Vec<String>)
    ensures
        dirs.deep_view() == watched(),
{
    let mut dirs: Vec<String> = Vec::new();
    dirs.push("src".to_owned());
    dirs.push("tests".to_owned());
    dirs.push("benches".to_owned());
    assert(dirs.deep_view() =~= watched());
    dirs
}

} // verus!
