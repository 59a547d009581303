use vstd::prelude::*;
use vstd::string::*;

verus! {

/// One script to run: the title shown for it and the path of the program.
#[derive(Debug, Clone, PartialEq, Eq)]
pub struct Script {
    pub title: String,
    pub path: String,
}

/// What a script is to the contracts: its title and its path.
pub struct ScriptView {
    pub title: Seq<char>,
    pub path: Seq<char>,
}

impl View for Script {
    type V = ScriptView;

    open spec fn view(&self) -> ScriptView {
        ScriptView { title: self.title@, path: self.path@ }
    }
}

/// The file stem (the last path segment without its extension) of a path, as
/// `std::path::Path::file_stem` gives it.
pub uninterp spec fn file_stem_of(path: Seq<char>) -> Option<Seq<char>>;

/// Relies on `std::path::Path::file_stem`: the stem depends on the path's text
/// alone; a stem of a `&str` path is valid UTF-8, so `to_str` keeps it whole.
#[verifier::external_body]
fn path_file_stem(path: &str) -> (r: Option<String>)
    ensures
        match r {
            Some(t) => file_stem_of(path@) == Some(t@),
            None => file_stem_of(path@) is None,
        },
{
    std::path::Path::new(path).file_stem().and_then(|n| n.to_str()).map(|n| n.to_string())
}

impl Script {
    /// A script titled by the file stem of its path, or by the whole path where
    /// the path has no stem.
    pub fn new(path: String) -> (r: Script)
        ensures
            r@.path == path@,
            r@.title == match file_stem_of(path@) {
                Some(t) => t,
                None => path@,
            },
    {
        let stem = path_file_stem(path.as_str());
        Script::with_stem(path, stem)
    }

    /// A script at `path` titled by `stem`, or by the path itself when `stem`
    /// is `None`.
    pub fn with_stem(path: String, stem: Option<String>) -> (r: Script)
        ensures
            r@.path == path@,
            r@.title == match stem {
                Some(t) => t@,
                None => path@,
            },
    {
        let title = match stem {
            Some(t) => t,
            None => path.clone(),
        };
        Script { title, path }
    }

    /// A script with the given title and path.
    pub fn titled(title: String, path: String) -> (r: Script)
        ensures
            r@.title == title@,
            r@.path == path@,
    {
        Script { title, path }
    }

    /// A copy of this script.
    pub fn duplicate(&self) -> (r: Script)
        ensures
            r@ == self@,
    {
        Script { title: self.title.clone(), path: self.path.clone() }
    }
}

} // verus!
