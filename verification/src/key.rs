//! The closed set of configuration values and the file name of each.

use vstd::prelude::*;

verus! {

/// Names a configuration value.
#[derive(Clone, Copy, Debug, PartialEq, Eq, Structural)]
pub enum ConfigFile {
    /// The path of the repository.
    Repo,
    /// The path of the editor.
    Editor,
}

impl ConfigFile {
    /// The name of the file that holds this value, as a sequence of characters.
    pub open spec fn spec_file_name(self) -> Seq<char> {
        match self {
            ConfigFile::Repo => "repo_path"@,
            ConfigFile::Editor => "editor_path"@,
        }
    }

    /// The name of the file that holds this value.
    pub fn file_name(self) -> (name: &'static str)
        ensures
            name@ == self.spec_file_name(),
    {
        match self {
            ConfigFile::Repo => "repo_path",
            ConfigFile::Editor => "editor_path",
        }
    }
}

} // verus!
