//! Where the configuration directory and its files live, relative to the
//! user's home directory.

use vstd::prelude::*;
use vstd::string::StringExecFns;
use crate::key::ConfigFile;

verus! {

/// The directory, directly under the home directory, that holds every
/// configuration file.
pub open spec fn spec_config_dir_path(home: Seq<char>) -> Seq<char> {
    home + "/"@ + ".eureka"@
}

/// The file called `file_name` inside the configuration directory.
pub open spec fn spec_config_file_path(home: Seq<char>, file_name: Seq<char>) -> Seq<char> {
    spec_config_dir_path(home) + "/"@ + file_name
}

/// The file that holds the value `file`.
pub open spec fn spec_config_name(home: Seq<char>, file: ConfigFile) -> Seq<char> {
    spec_config_file_path(home, file.spec_file_name())
}

/// Builds the path of the configuration directory under `home`.
pub fn config_dir_path(home: &str) -> (path: String)
    ensures
        path@ == spec_config_dir_path(home@),
{
    String::from_str(home).concat("/").concat(".eureka")
}

/// Builds the path of the file called `file_name` in the configuration
/// directory under `home`.
pub fn config_file_path(home: &str, file_name: String) -> (path: String)
    ensures
        path@ == spec_config_file_path(home@, file_name@),
{
    config_dir_path(home).concat("/").concat(file_name.as_str())
}

/// Builds the path of the file that holds the value `file`.
pub fn config_name(home: &str, file: ConfigFile) -> (path: String)
    ensures
        path@ == spec_config_name(home@, file),
{
    config_file_path(home, String::from_str(file.file_name()))
}

/// Every configuration file lies directly inside the configuration
/// directory: its path is the directory's path, a separator, and the file's
/// name.
pub proof fn config_file_lies_in_config_dir(home: Seq<char>, file: ConfigFile)
    ensures
        spec_config_name(home, file) == spec_config_dir_path(home) + "/"@ + file.spec_file_name(),
        spec_config_dir_path(home).is_prefix_of(spec_config_name(home, file)),
        spec_config_name(home, file).len() > spec_config_dir_path(home).len(),
{
    reveal_strlit("/");
    let dir = spec_config_dir_path(home);
    let rest = "/"@ + file.spec_file_name();
    assert(dir + "/"@ + file.spec_file_name() =~= dir + rest);
    assert((dir + rest).subrange(0, dir.len() as int) =~= dir);
}

/// The two values are kept in different files, whatever the home directory.
pub proof fn config_names_differ(home: Seq<char>)
    ensures
        spec_config_name(home, ConfigFile::Repo) != spec_config_name(home, ConfigFile::Editor),
{
    reveal_strlit("/");
    reveal_strlit(".eureka");
    reveal_strlit("repo_path");
    reveal_strlit("editor_path");
    let repo = spec_config_name(home, ConfigFile::Repo);
    let editor = spec_config_name(home, ConfigFile::Editor);
    assert(repo.len() == home.len() + 18);
    assert(editor.len() == home.len() + 20);
}

} // verus!
