//! Configuration-file access for a command-line tool: where the per-user
//! configuration directory and its files live, what a stored value is, and
//! what each operation on them decides.

pub mod error;
pub mod key;
pub mod outcome;
pub mod path;
pub mod store;
pub mod value;

pub use crate::error::ConfigError;
pub use crate::error::ErrorKind;
pub use crate::error::FaultKind;
pub use crate::error::IoFault;
pub use crate::key::ConfigFile;
pub use crate::outcome::ReadOutcome;
pub use crate::outcome::WriteOutcome;
pub use crate::outcome::WriteRequest;
pub use crate::path::config_dir_path;
pub use crate::path::config_file_path;
pub use crate::path::config_name;
pub use crate::store::ConfigManagement;
pub use crate::store::FileHandler;
pub use crate::store::FileManagement;
