//! Input resolution: choosing between inline text and a file path, and
//! validating that resolved content is not blank.

use vstd::prelude::*;

verus! {

use vstd::string::*;
use crate::text::trimmed;

/// Input reading errors.
#[derive(Debug)]
pub enum InputError {
    /// A file could not be read; holds the path and the underlying message.
    FileReadError { path: String, error: String },
    /// The resolved content is empty after trimming whitespace.
    EmptyInput,
    /// Neither inline text nor a file path was given.
    NoInputProvided,
}

impl InputError {
    /// The view of the message that `message` renders for this error.
    pub open spec fn spec_message(self) -> Seq<char> {
        match self {
            InputError::FileReadError { path, error } => "Failed to read file '"@ + path@ + "': "@
                + error@,
            InputError::EmptyInput => "Input is empty"@,
            InputError::NoInputProvided => "No input provided: use --file or --text"@,
        }
    }

    /// Renders the error as a human-readable message.
    pub fn message(&self) -> (r: String)
        ensures
            r@ == self.spec_message(),
    {
        match self {
            InputError::FileReadError { path, error } => {
                let mut r = String::new();
                r.append("Failed to read file '");
                r.append(path.as_str());
                r.append("': ");
                r.append(error.as_str());
                r
            },
            InputError::EmptyInput => "Input is empty".to_owned(),
            InputError::NoInputProvided => "No input provided: use --file or --text".to_owned(),
        }
    }
}

/// Where the text to refine comes from.
pub enum InputSource {
    /// Inline text input.
    Input(String),
    /// Input read from a file at the held path.
    File(String),
}

impl InputSource {
    /// Resolves the input source from the two optional CLI values: inline
    /// text wins, then the file path, and with neither the resolution fails.
    pub fn resolve_input_source(input: Option<String>, file_path: Option<String>) -> (r: Result<
        InputSource,
        InputError,
    >)
        ensures
            match input {
                Some(text) => r == Ok::<InputSource, InputError>(InputSource::Input(text)),
                None => match file_path {
                    Some(path) => r == Ok::<InputSource, InputError>(InputSource::File(path)),
                    None => r == Err::<InputSource, InputError>(InputError::NoInputProvided),
                },
            },
    {
        if let Some(text) = input {
            return Ok(InputSource::Input(text));
        }
        if let Some(path) = file_path {
            return Ok(InputSource::File(path));
        }
        Err(InputError::NoInputProvided)
    }
}

/// Accepts resolved content exactly when it is non-blank: content that is
/// empty after trimming whitespace is rejected with `EmptyInput`, and any
/// other content is returned unchanged.
pub fn validate_content(content: String) -> (r: Result<String, InputError>)
    ensures
        trimmed(content@).len() == 0 ==> r == Err::<String, InputError>(InputError::EmptyInput),
        trimmed(content@).len() != 0 ==> r == Ok::<String, InputError>(content),
{
    let t = crate::text::trim_str(content.as_str());
    if t.is_empty() {
        return Err(InputError::EmptyInput);
    }
    Ok(content)
}

} // verus!
