//! Source patching and command planning for the Fishstrap installer.
//!
//! The installer clones the Fishstrap sources, patches a handful of files at
//! well-known markers, builds them and installs the result.  Everything that
//! decides *what* is done lives here and is verified; reading and writing
//! files and starting processes is left to the application around it.
pub mod args;
pub mod clock;
pub mod commands;
pub mod escape;
pub mod inject;
pub mod lookup;
pub mod markers;
pub mod number;
pub mod patch;
pub mod paths;
pub mod plan;
pub mod setup;
pub mod text;
pub mod tools;
pub mod whitespace;
