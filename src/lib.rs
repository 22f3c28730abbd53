//! Validated values and partial-update models for a remote API's resources:
//! bounded strings and URLs, short identifiers and references, proxy tags,
//! and patches that tell "left alone" apart from "set".
pub mod limited;
pub mod models;
pub mod references;
