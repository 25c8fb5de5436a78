//! Compatibility-tag resolution for packaging a pre-built native extension
//! into Python wheels.
//!
//! Two tagging strategies produce a list of [`task::WheelTask`] values: one
//! reads the stable-ABI markers that the build manifest declares for the
//! native-binding dependency, the other takes what the interpreters found on
//! the host report about themselves. [`assembly::Assembly`] then decides, one
//! writer request at a time, how that list is turned into wheel archives.

pub mod abi3;
pub mod assembly;
pub mod error;
pub mod manifest;
pub mod metadata;
pub mod task;
pub mod text;
pub mod version;
