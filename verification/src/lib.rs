//! Decision logic of a supervisor for a local Ollama model host.
//!
//! The crate performs no input or output. A driver runs commands and HTTP
//! requests and hands their outcomes in as plain values; the functions here
//! say what to run and what each outcome means.

pub mod command;
pub mod fetch;
pub mod http;
pub mod inventory;
pub mod json;
pub mod launch;
pub mod probe;
pub mod status;
pub mod text;

pub use status::{OllamaModel, OllamaStatus};
