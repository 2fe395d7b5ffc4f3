//! The errors that the path operations report.
use vstd::prelude::*;

verus! {

/// Why an operation on a path was refused.
#[derive(Debug)]
pub enum JiniError {
    /// A segment, property or attribute text that holds a space.
    Validation { text: String },
    /// The delimiter pattern that splits a path into segments did not compile.
    Parse { pattern: String },
}

/// Whether `e` reports the text `s` as holding a space.
pub open spec fn rejects_text(e: JiniError, s: Seq<char>) -> bool {
    match e {
        JiniError::Validation { text } => text@ == s,
        _ => false,
    }
}

/// Whether `e` reports that the pattern `s` did not compile.
pub open spec fn is_parse_error(e: JiniError, s: Seq<char>) -> bool {
    match e {
        JiniError::Parse { pattern } => pattern@ == s,
        _ => false,
    }
}

/// What `message` says of an error.
pub open spec fn message_of(e: JiniError) -> Seq<char> {
    match e {
        JiniError::Validation { text } => "The \""@ + text@ + "\" contain spaces"@,
        JiniError::Parse { pattern } => "The pattern \""@ + pattern@ + "\" does not compile"@,
    }
}

impl JiniError {
    /// A sentence that describes the error.
    pub fn message(&self) -> (r: String)
        ensures
            r@ == message_of(*self),
    {
        match self {
            JiniError::Validation { text } => {
                String::from_str("The \"").concat(text.as_str()).concat("\" contain spaces")
            },
            JiniError::Parse { pattern } => {
                String::from_str("The pattern \"").concat(pattern.as_str()).concat(
                    "\" does not compile",
                )
            },
        }
    }
}

} // verus!
