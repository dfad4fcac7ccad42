//! Asset staging and compilation pipeline for per-class animation model
//! sources.
//!
//! The library holds the decision logic of the pipeline: the catalog of
//! classes and animation variants, the selection of modified variants, the
//! staging plan that mirrors the template library's two-level layout, the
//! build-script patch text, the derivation of tool paths from the install
//! location, the sequential compile batch, and the lifecycle of the live
//! models folder. Callers perform the filesystem and process work that these
//! decisions call for and feed the observed results back in as plain values.

pub mod batch;
pub mod catalog;
pub mod class;
pub mod error;
pub mod origin;
pub mod patch;
pub mod staging;
pub mod toolpath;
pub mod workarea;
