//! The capability surface an extension uses to touch the outside world:
//! paths, file removal, configuration-store access, command execution and a
//! shell restart. The host supplies the one real implementation; the engine
//! consumes it opaquely, promises nothing about any operation's outcome,
//! and is verified against every outcome. Operations that a platform does
//! not offer report a fixed error instead of being compiled out.

use vstd::prelude::*;

verus! {

/// What one external command run reported.
#[derive(Clone, Debug)]
pub struct CmdOutput {
    pub success: bool,
    pub code: Option<i64>,
    pub stdout: String,
    pub stderr: String,
}

/// One entry of a directory listing, with the metadata the cleaner reads.
#[derive(Clone, Debug)]
pub struct DirEntryInfo {
    pub path: String,
    pub is_dir: bool,
    pub len: u64,
}

/// The host-supplied handle to the outside environment. Every operation is
/// fallible and reports failure as a human-readable message; none carries a
/// contract, so callers in the engine handle every outcome.
pub trait PluginApi {
    /// The host application's data directory.
    fn app_data_dir(&self) -> Result<String, String>;

    /// The scratch directory for temporary files.
    fn temp_dir(&self) -> String;

    /// The system root directory, when the platform declares one.
    fn system_root(&self) -> Option<String>;

    /// Whether a path exists.
    fn path_exists(&self, path: &str) -> bool;

    /// The entries of a directory.
    fn read_dir(&self, path: &str) -> Result<Vec<DirEntryInfo>, String>;

    /// Creates a directory and its parents.
    fn create_dir_all(&self, path: &str) -> Result<(), String>;

    /// Removes a single file.
    fn remove_file(&self, path: &str) -> Result<(), String>;

    /// Removes a directory tree.
    fn remove_dir_all(&self, path: &str) -> Result<(), String>;

    /// Reads a string value from the configuration store.
    fn get_registry_string(&self, key_path: &str, name: &str) -> Result<String, String>;

    /// Writes a string value to the configuration store.
    fn set_registry_string(&self, key_path: &str, name: &str, value: &str) -> Result<(), String>;

    /// Whether a configuration key exists.
    fn registry_key_exists(&self, key_path: &str) -> Result<bool, String>;

    /// Creates a configuration key.
    fn create_registry_key(&self, key_path: &str) -> Result<(), String>;

    /// Deletes a configuration key and everything under it.
    fn delete_registry_key(&self, key_path: &str) -> Result<(), String>;

    /// Restarts the host shell process, best effort.
    fn restart_explorer(&self) -> Result<(), String>;

    /// Runs an external command and reports what it printed.
    fn run_command(&self, cmd: &str, args: &Vec<String>) -> Result<CmdOutput, String>;

    /// Whether the host platform offers the Windows-only operations.
    fn os_is_windows(&self) -> bool;
}

} // verus!
