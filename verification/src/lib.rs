//! Action resolution, prompt rendering and provider reply classification
//! for a text rephrasing tool, with every function proved against its contract.

pub mod actions;
pub mod config;
pub mod error;
pub mod llm;
pub mod output;
pub mod text;
pub mod text_map;

pub use error::RephraserError;
