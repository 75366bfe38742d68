//! Output format selection for refined text.

use vstd::prelude::*;

verus! {

/// Output format for refined text results.
#[derive(Clone, Copy, PartialEq, Eq, Structural, Debug)]
pub enum OutputFormat {
    /// Plain text output
    Text,
    /// JSON output
    Json,
}

impl OutputFormat {
    /// Creates an `OutputFormat` from the CLI boolean flag.
    pub fn from_flags(output_json: bool) -> (r: Self)
        ensures
            r == (if output_json { OutputFormat::Json } else { OutputFormat::Text }),
    {
        if output_json {
            return OutputFormat::Json;
        }
        OutputFormat::Text
    }
}

} // verus!
