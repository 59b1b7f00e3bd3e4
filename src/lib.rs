//! Pre-publish validation for a package: reads the manifest, reconciles it
//! with the registry's answer and the working tree's state, and decides which
//! confirmations to ask and which command to run.

pub mod error;
pub mod version;
pub mod manifest;
pub mod registry;
pub mod status;
pub mod plan;
