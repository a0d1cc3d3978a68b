//! A safety-aware conversational front end for a locally hosted language model:
//! keyword-based risk classification, prompt composition, response shaping and
//! the lifecycle of the loaded model.

pub mod safety;
pub mod prompt;
pub mod response;
pub mod engine;
pub mod resource;
