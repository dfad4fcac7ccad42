//! The pipeline's error taxonomy.
//!
//! Every pipeline operation reports failure through this one enum; the caller
//! decides severity. Variants that arise from filesystem or process work are
//! produced by the caller when it performs the actions the library planned;
//! the library's own functions state exactly which variant they return and
//! when.

use vstd::prelude::*;
use crate::class::Class;

verus! {

/// Everything the pipeline can fail with.
#[derive(Debug, PartialEq, Eq)]
pub enum ScaError {
    /// The template library root folder does not exist.
    MissingLibraryRoot,
    /// One of the fixed class folders is absent from the library root.
    MissingCategoryFolder(Class),
    /// A directory was found inside an animation folder, which must hold
    /// flat files only; the path components name the offending entry.
    UnexpectedNesting(Vec<String>),
    /// No build script with the expected extension in a staged folder.
    ScriptNotFound,
    /// The external compiler executable is not at its derived location.
    ToolNotFound,
    /// The game content root is not at its derived location.
    ContentRootNotFound,
    /// An external process could not be launched.
    SpawnFailed,
    /// The external compiler or packager exited with a non-zero status.
    CompilerExitedNonZero,
    /// The packaged archive could not be moved to its destination.
    RelocateFailed,
    /// A diversion of the live models folder is already pending.
    DiversionExists,
    /// Any other filesystem failure, carried as its message.
    Io(String),
}

} // verus!
