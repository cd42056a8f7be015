//! The operations on the configuration directory and its files.
//!
//! No operation touches the file system. Each says which path it concerns,
//! and decides its result from what the file system answered; the caller
//! makes the calls in between.

use vstd::prelude::*;
use crate::error::spec_create_failed;
use crate::error::spec_missing_path;
use crate::error::spec_propagated;
use crate::error::spec_text_result;
use crate::error::spec_unit_result;
use crate::error::spec_unreadable;
use crate::error::spec_unresolved_home;
use crate::error::spec_write_failed;
use crate::error::ConfigError;
use crate::error::ConfigErrorView;
use crate::error::ErrorKind;
use crate::error::FaultKind;
use crate::error::IoFault;
use crate::error::IoFaultView;
use crate::key::ConfigFile;
use crate::outcome::spec_answer;
use crate::outcome::ReadOutcome;
use crate::outcome::ReadOutcomeView;
use crate::outcome::WriteOutcome;
use crate::outcome::WriteOutcomeView;
use crate::outcome::WriteRequest;
use crate::path::config_dir_path;
use crate::path::config_name;
use crate::path::spec_config_dir_path;
use crate::path::spec_config_name;
use crate::value::ends_with_newline;
use crate::value::spec_stored_bytes;
use crate::value::spec_strip_trailing_newline;
use crate::value::spec_value_of_bytes;
use crate::value::stored_bytes;
use crate::value::stored_value_reads_back;
use crate::value::value_of_bytes;

verus! {

/// The result of creating the configuration directory: a fault is handed on
/// to the caller as it came.
pub open spec fn spec_dir_create_result(made: Result<(), IoFaultView>) -> Result<
    (),
    ConfigErrorView,
> {
    match made {
        Ok(_) => Ok(()),
        Err(fault) => Err(spec_propagated(fault)),
    }
}

/// Whether a path holds an entry, by the answer to asking for its metadata:
/// it does where the call succeeded, whatever the entry is, and any fault
/// counts as absence.
pub open spec fn spec_path_exists(probe: Result<(), IoFaultView>) -> bool {
    probe is Ok
}

/// The result of reading the value `file` under `home`.
///
/// A file that cannot be opened is the caller's to handle. One that was
/// opened and cannot be read, or does not hold text, is fatal. Otherwise the
/// value is the file's text without one trailing newline.
pub open spec fn spec_read_result(
    home: Seq<char>,
    file: ConfigFile,
    outcome: ReadOutcomeView,
) -> Result<Seq<char>, ConfigErrorView> {
    let path = spec_config_name(home, file);
    match outcome {
        ReadOutcomeView::OpenFailed(fault) => Err(spec_propagated(fault)),
        ReadOutcomeView::ReadFailed(_) => Err(spec_unreadable(ErrorKind::IoFailure, path)),
        ReadOutcomeView::Loaded(bytes) => match spec_value_of_bytes(bytes) {
            Some(value) => Ok(value),
            None => Err(spec_unreadable(ErrorKind::EncodingFailure, path)),
        },
    }
}

/// The result of writing the value `file` under `home`: every failure is
/// fatal, and names the path and the cause.
pub open spec fn spec_write_result(
    home: Seq<char>,
    file: ConfigFile,
    outcome: WriteOutcomeView,
) -> Result<(), ConfigErrorView> {
    let path = spec_config_name(home, file);
    match outcome {
        WriteOutcomeView::CreateFailed(fault) => Err(spec_create_failed(path, fault.message)),
        WriteOutcomeView::WriteFailed(fault) => Err(spec_write_failed(path, fault.message)),
        WriteOutcomeView::Written => Ok(()),
    }
}

/// What removing the value `file` under `home` comes to, given the answer to
/// asking for its path's metadata: the path to delete where it holds an
/// entry, and otherwise the error that names the path.
pub open spec fn spec_rm_decision(
    home: Seq<char>,
    file: ConfigFile,
    probe: Result<(), IoFaultView>,
) -> Result<Seq<char>, ConfigErrorView> {
    let path = spec_config_name(home, file);
    if spec_path_exists(probe) {
        Ok(path)
    } else {
        Err(spec_missing_path(path))
    }
}

/// The life of the configuration directory and the reading and writing of
/// the values in it.
pub trait ConfigManagement {
    /// The home directory under which the configuration directory lies.
    spec fn home(&self) -> Seq<char>;

    /// Concludes the creation of the configuration directory and its missing
    /// ancestors, given the file system's answer.
    fn config_dir_create(&self, made: Result<(), IoFault>) -> (result: Result<(), ConfigError>)
        ensures
            spec_unit_result(result) == spec_dir_create_result(spec_answer(made)),
    ;

    /// Tells whether the configuration directory exists, given the answer to
    /// asking for its metadata.
    fn config_dir_exists(&self, probe: &Result<(), IoFault>) -> (exists: bool)
        ensures
            exists == spec_path_exists(spec_answer(*probe)),
    ;

    /// Concludes the reading of the value `file`, given how opening and
    /// reading its file went.
    fn read_from_config(&self, file: ConfigFile, outcome: ReadOutcome) -> (result: Result<
        String,
        ConfigError,
    >)
        ensures
            spec_text_result(result) == spec_read_result(self.home(), file, outcome@),
    ;

    /// Concludes the writing of the value `file`, given how creating and
    /// writing its file went.
    fn write_to_config(&self, file: ConfigFile, outcome: WriteOutcome) -> (result: Result<
        (),
        ConfigError,
    >)
        ensures
            spec_unit_result(result) == spec_write_result(self.home(), file, outcome@),
    ;
}

/// Existence of paths and the removal of configuration files.
pub trait FileManagement {
    /// The home directory under which the configuration directory lies.
    spec fn home(&self) -> Seq<char>;

    /// Tells whether a path holds an entry, given the answer to asking for
    /// its metadata.
    fn path_exists(&self, probe: &Result<(), IoFault>) -> (exists: bool)
        ensures
            exists == spec_path_exists(spec_answer(*probe)),
    ;

    /// Decides the removal of the value `file`, given the answer to asking
    /// for its path's metadata: the path of the file to delete, or the error
    /// where there is nothing to delete. A fault of the deletion itself is
    /// handed on with `ConfigError::propagated`.
    fn rm_file(&self, file: ConfigFile, probe: Result<(), IoFault>) -> (result: Result<
        String,
        ConfigError,
    >)
        ensures
            spec_text_result(result) == spec_rm_decision(self.home(), file, spec_answer(probe)),
    ;
}

/// The configuration store of one user: it knows the user's home directory
/// and nothing else.
#[derive(Clone, Debug, PartialEq, Eq)]
pub struct FileHandler {
    home: String,
}

impl View for FileHandler {
    type V = Seq<char>;

    /// The home directory.
    closed spec fn view(&self) -> Seq<char> {
        self.home@
    }
}

impl FileHandler {
    /// Makes the store for a home directory as it was looked up. Without a
    /// home directory there is no store.
    pub fn new(home: Option<String>) -> (result: Result<FileHandler, ConfigError>)
        ensures
            match result {
                Ok(handler) => home is Some && handler@ == home->0@,
                Err(e) => home is None && e@ == spec_unresolved_home(),
            },
    {
        match home {
            Some(home) => Ok(FileHandler { home }),
            None => Err(ConfigError::unresolved_home()),
        }
    }

    /// The home directory.
    pub fn home_dir(&self) -> (home: &str)
        ensures
            home@ == self@,
    {
        self.home.as_str()
    }

    /// The path of the configuration directory.
    pub fn config_dir_path(&self) -> (path: String)
        ensures
            path@ == spec_config_dir_path(self@),
    {
        config_dir_path(self.home.as_str())
    }

    /// The path of the file that holds the value `file`.
    pub fn config_name(&self, file: ConfigFile) -> (path: String)
        ensures
            path@ == spec_config_name(self@, file),
    {
        config_name(self.home.as_str(), file)
    }

    /// What to ask of the file system to store `value` as the value `file`:
    /// the file is replaced as a whole by the value's bytes, with nothing
    /// added.
    pub fn write_request(&self, file: ConfigFile, value: String) -> (request: WriteRequest)
        ensures
            request.path@ == spec_config_name(self@, file),
            request.bytes@ == spec_stored_bytes(value@),
    {
        WriteRequest { path: self.config_name(file), bytes: stored_bytes(value.as_str()) }
    }
}

impl ConfigManagement for FileHandler {
    open spec fn home(&self) -> Seq<char> {
        self@
    }

    fn config_dir_create(&self, made: Result<(), IoFault>) -> (result: Result<(), ConfigError>) {
        match made {
            Ok(_) => Ok(()),
            Err(fault) => Err(ConfigError::propagated(fault)),
        }
    }

    fn config_dir_exists(&self, probe: &Result<(), IoFault>) -> (exists: bool) {
        self.path_exists(probe)
    }

    fn read_from_config(&self, file: ConfigFile, outcome: ReadOutcome) -> (result: Result<
        String,
        ConfigError,
    >) {
        match outcome {
            ReadOutcome::OpenFailed(fault) => Err(ConfigError::propagated(fault)),
            ReadOutcome::ReadFailed(_) => {
                let path = self.config_name(file);
                Err(ConfigError::unreadable(ErrorKind::IoFailure, path.as_str()))
            },
            ReadOutcome::Loaded(bytes) => match value_of_bytes(bytes) {
                Some(value) => Ok(value),
                None => {
                    let path = self.config_name(file);
                    Err(ConfigError::unreadable(ErrorKind::EncodingFailure, path.as_str()))
                },
            },
        }
    }

    fn write_to_config(&self, file: ConfigFile, outcome: WriteOutcome) -> (result: Result<
        (),
        ConfigError,
    >) {
        match outcome {
            WriteOutcome::CreateFailed(fault) => {
                let path = self.config_name(file);
                Err(ConfigError::create_failed(path.as_str(), fault.message.as_str()))
            },
            WriteOutcome::WriteFailed(fault) => {
                let path = self.config_name(file);
                Err(ConfigError::write_failed(path.as_str(), fault.message.as_str()))
            },
            WriteOutcome::Written => Ok(()),
        }
    }
}

impl FileManagement for FileHandler {
    open spec fn home(&self) -> Seq<char> {
        self@
    }

    fn path_exists(&self, probe: &Result<(), IoFault>) -> (exists: bool) {
        probe.is_ok()
    }

    fn rm_file(&self, file: ConfigFile, probe: Result<(), IoFault>) -> (result: Result<
        String,
        ConfigError,
    >) {
        let path = self.config_name(file);
        if self.path_exists(&probe) {
            Ok(path)
        } else {
            Err(ConfigError::missing_path(path.as_str()))
        }
    }
}

/// A value that was written is the value that is read, up to one trailing
/// newline. Where the file of a value holds the bytes that a write of `value`
/// asks for, reading it succeeds, for either value and any home directory:
/// with `value` itself where `value` does not end in a newline, and with
/// `value` without its last character where it does.
pub proof fn written_value_is_read_back(home: Seq<char>, file: ConfigFile, value: Seq<char>)
    ensures
        spec_read_result(home, file, ReadOutcomeView::Loaded(spec_stored_bytes(value))) == Ok::<
            Seq<char>,
            ConfigErrorView,
        >(spec_strip_trailing_newline(value)),
        !ends_with_newline(value) ==> spec_read_result(
            home,
            file,
            ReadOutcomeView::Loaded(spec_stored_bytes(value)),
        ) == Ok::<Seq<char>, ConfigErrorView>(value),
        ends_with_newline(value) ==> spec_read_result(
            home,
            file,
            ReadOutcomeView::Loaded(spec_stored_bytes(value)),
        ) == Ok::<Seq<char>, ConfigErrorView>(value.drop_last()),
{
    stored_value_reads_back(value);
}

/// Reading a value whose file does not exist is an error of kind `NotFound`
/// that the caller can handle: it is not fatal, and it carries what the
/// file system said.
pub proof fn read_of_missing_file_is_not_found(
    home: Seq<char>,
    file: ConfigFile,
    fault: IoFaultView,
)
    requires
        fault.kind == FaultKind::NotFound,
    ensures
        spec_read_result(home, file, ReadOutcomeView::OpenFailed(fault)) == Err::<
            Seq<char>,
            ConfigErrorView,
        >(ConfigErrorView { kind: ErrorKind::NotFound, message: fault.message, fatal: false }),
{
}

/// Removing a value whose file does not exist deletes nothing and is an
/// error of kind `NotFound`, not fatal, whose message ends with the path
/// that was asked for. Removing one whose file exists comes to deleting that
/// file, the one at the value's own path.
pub proof fn removal_asks_for_the_files_own_path(
    home: Seq<char>,
    file: ConfigFile,
    fault: IoFaultView,
)
    ensures
        spec_rm_decision(home, file, Ok(())) == Ok::<Seq<char>, ConfigErrorView>(
            spec_config_name(home, file),
        ),
        spec_rm_decision(home, file, Err(fault)) matches Err(e) && e.kind == ErrorKind::NotFound
            && !e.fatal && spec_config_name(home, file).is_suffix_of(e.message),
{
    let path = spec_config_name(home, file);
    let message = spec_missing_path(path).message;
    assert(message.subrange(message.len() - path.len(), message.len() as int) =~= path);
}

/// No failure of a write is left to pass unnoticed: whatever the file
/// system reported, the error is fatal, and its message names the path of
/// the value's file.
pub proof fn failed_write_is_fatal_and_names_the_path(
    home: Seq<char>,
    file: ConfigFile,
    outcome: WriteOutcomeView,
)
    requires
        outcome != WriteOutcomeView::Written,
    ensures
        spec_write_result(home, file, outcome) matches Err(e) && e.fatal && e.kind
            == ErrorKind::IoFailure && exists|at: int|
            0 <= at && at + spec_config_name(home, file).len() <= e.message.len()
                && #[trigger] e.message.subrange(at, at + spec_config_name(home, file).len())
                == spec_config_name(home, file),
{
    let path = spec_config_name(home, file);
    let e = spec_write_result(home, file, outcome)->Err_0;
    match outcome {
        WriteOutcomeView::CreateFailed(fault) => {
            let at: int = "Couldn't create "@.len() as int;
            assert(e.message.subrange(at, at + path.len()) =~= path);
        },
        WriteOutcomeView::WriteFailed(fault) => {
            let at: int = "Couldn't write to "@.len() as int;
            assert(e.message.subrange(at, at + path.len()) =~= path);
        },
        WriteOutcomeView::Written => {},
    }
}

} // verus!
