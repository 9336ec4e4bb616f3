//! Where the settings come from.

use vstd::prelude::*;

verus! {

/// Reads the settings from a TOML file at `path`.
pub struct ConfigLoader {
    path: String,
}

impl ConfigLoader {
    /// A loader for the file at `path`.
    pub fn new(path: String) -> (l: Self)
        ensures
            l.path_text() == path@,
    {
        ConfigLoader { path }
    }

    /// The path of the settings file.
    pub closed spec fn path_text(&self) -> Seq<char> {
        self.path@
    }

    /// The path of the settings file.
    pub fn path(&self) -> (p: &str)
        ensures
            p@ == self.path_text(),
    {
        self.path.as_str()
    }
}

} // verus!
