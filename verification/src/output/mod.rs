//! Delivery of a completion: what to run, and with what text.

pub mod formatter;

pub use formatter::OutputHandler;
