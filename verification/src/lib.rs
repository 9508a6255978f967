//! Version resolution and binary lifecycle for the `vulnera-adapter` helper.
//!
//! The library decides which adapter version to run, whether it has to be
//! downloaded, and how the command that launches it looks. It performs no
//! input or output itself: the host hands in what it has read and carries
//! out what the library asks for.

pub mod command;
pub mod decimal;
pub mod installer;
pub mod launcher;
pub mod paths;
pub mod platform;
pub mod releases;
pub mod resolver;
pub mod store;
pub mod text;
