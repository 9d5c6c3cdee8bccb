//! The options of a run.
use vstd::prelude::*;
use vstd::string::*;

verus! {

/// The options of a run: the root to walk, where the output goes, whether
/// files that are not UTF-8 are included as base64, and the allow-list of
/// extensions (empty: every file).
pub struct Args {
    pub include_binary: bool,
    pub path: Option<String>,
    pub output: Option<String>,
    pub allowed_extensions: Vec<String>,
}

impl Args {
    /// The directory to walk: the one given, else the current one.
    pub fn root(&self) -> (r: String)
        ensures
            r@ == match self.path {
                Some(p) => p@,
                None => "."@,
            },
    {
        match &self.path {
            Some(p) => p.clone(),
            None => String::from_str("."),
        }
    }
}

} // verus!
