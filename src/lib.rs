//! Conditional feed polling: request validators, redirect handling,
//! response classification, artifact layout and bounded admission of fetches.

pub mod artifact;
pub mod config;
pub mod executor;
pub mod pool;
pub mod redirect;
pub mod validators;
