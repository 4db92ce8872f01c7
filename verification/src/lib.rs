//! Composition and rendering engine for an assembly-pipeline script generator.
//!
//! The library turns raw run parameters into a canonical [`opts::OptionSet`],
//! decides which pipeline stages to emit and in what order
//! ([`stage::compose`]), and renders each selected stage's template into the
//! text of a shell script ([`pipeline::emit_plan`]).  Writing the rendered
//! artifacts to disk is left to the caller.

pub mod catalog;
pub mod opts;
pub mod pipeline;
pub mod stage;
pub mod template;
