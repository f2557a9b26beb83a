//! The boundary between the kernel and the world outside it.
//!
//! A window that needs work the library cannot do — reading a directory,
//! creating files, changing the working directory, launching the external
//! engine — hands an `Action` out of the kernel. The surrounding event loop
//! performs it and hands the result back as an `Outcome`, which the kernel
//! routes to the active window.

use vstd::prelude::*;

use crate::file_dialogue::RawEntry;
use crate::project::ProjectLayout;

verus! {

/// One piece of outside work requested by a window. Paths are held as their
/// components from the root.
pub enum Action {
    /// Read the directory's entries for a listing refresh.
    ReadDir(Vec<String>),
    /// Create the fixed project layout (two directories, two files) under the
    /// given project directory, creating it first.
    CreateProjectDirs(Vec<String>),
    /// Probe which of the four required project elements exist.
    ProbeProjectLayout(Vec<String>),
    /// Make the given directory the process's working directory.
    SetCwd(Vec<String>),
    /// Read the configuration artifact at its conventional path.
    ReadConfig,
    /// Write the configuration artifact.
    WriteConfig { path: String, text: String },
    /// Launch the external fuzzing engine, fire-and-forget.
    Launch { blob: String, port: u16, binary: Vec<String> },
}

/// The result of one performed `Action`. Errors carry the underlying message.
pub enum Outcome {
    DirListing(Vec<RawEntry>),
    CreateResult(Option<String>),
    ProbeResult(ProjectLayout),
    CwdResult(Option<String>),
    ConfigText(Result<String, String>),
    WriteResult(Option<String>),
    LaunchResult(Option<String>),
}

} // verus!
