//! Verified core of a transcription-refinement command-line tool.
//!
//! The library resolves raw or Whisper-style transcription input, loads a
//! user dictionary, builds the prompts for an OpenAI-compatible
//! chat-completions service, and formats the refined text as plain text or
//! as a JSON envelope.  Everything that computes or decides lives here with
//! a contract; file and network transport is left to the binary around it.

use vstd::prelude::*;

pub mod app;
pub mod cli;
pub mod client;
pub mod config;
pub mod files;
pub mod input;
pub mod network;
pub mod output;
pub mod prompts;
pub mod request;
pub mod response;
pub mod text;
pub mod transcription;

verus! {

} // verus!
