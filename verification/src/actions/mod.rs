//! Actions: named prompt templates and how they are turned into prompts.

pub mod resolver;
pub mod template;

pub use resolver::ActionResolver;
pub use template::TemplateEngine;
