use vstd::prelude::*;

verus! {

/// Why a document could not be turned into Markdown.
#[derive(Debug, Clone, Copy, PartialEq, Eq, Structural)]
pub enum DocError {
    /// The input text is not syntactically valid JSON.
    Parse,
    /// A required field is missing or has the wrong shape.
    Schema,
}

impl DocError {
    /// A one-line description of the failure.
    pub fn message(&self) -> (text: &'static str)
        ensures
            text@ == (match *self {
                DocError::Parse => "input is not valid JSON"@,
                DocError::Schema => "a required field is missing or has the wrong shape"@,
            }),
    {
        match self {
            DocError::Parse => "input is not valid JSON",
            DocError::Schema => "a required field is missing or has the wrong shape",
        }
    }
}

} // verus!
