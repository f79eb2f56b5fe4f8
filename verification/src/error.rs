use vstd::prelude::*;

verus! {

/// What a caller can get wrong.
#[derive(Debug, PartialEq, Eq)]
pub enum LogError {
    /// The character is not the code of any severity.
    InvalidSeverityCode(char),
    /// No channel of that name has been created.
    UnknownChannel(String),
}

} // verus!
