//! Configuration values and their defaults.

pub mod models;

pub use models::{
    ActionConfig, Config, LlmConfig, LlmParameters, OutputConfig, OutputMethod, Temperature,
};
