//! The command-line surface as plain data.  Argument parsing itself is the
//! binary's job; it hands the parsed values over in these types.

use vstd::prelude::*;

verus! {

/// The parsed command line.
pub struct Cli {
    /// The chosen subcommand, if any.
    pub command: Option<Commands>,
    /// Inline text to refine.
    pub input: Option<String>,
    /// Path of a text file to refine.
    pub file: Option<String>,
    /// Whether diagnostic output is wanted.
    pub verbose: bool,
    /// Whether the result should be emitted as a JSON envelope.
    pub output_json: bool,
}

/// The subcommands of the tool.
pub enum Commands {
    /// Treat the input as Whisper JSON and refine it confidence-aware.
    WhisperTranscribe {
        /// Inline Whisper JSON to refine.
        input: Option<String>,
        /// Path of a Whisper JSON file to refine.
        file: Option<String>,
        /// Whether the result should be emitted as a JSON envelope.
        output_json: bool,
    },
    /// Reset the configuration file to default values.
    ResetConfig,
}

} // verus!
