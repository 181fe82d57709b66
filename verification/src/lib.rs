//! A chat layer over a local language model: it wraps a query in the
//! model's prompt template, drives generation token by token, decides when
//! generation stops, and cleans up the response.

pub mod config;
pub mod llama;
pub mod llama_cpp;
pub mod policy;
pub mod prompt;
pub mod session;
pub mod text;
