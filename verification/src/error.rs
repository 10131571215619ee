use vstd::prelude::*;
use vstd::string::StringExecFns;

verus! {

/// An error surfaced by a fallible operation: the engine's status code when
/// one is available, and a human-readable message when one can be supplied.
#[derive(Clone, Debug, PartialEq)]
pub struct Error {
    pub code: Option<isize>,
    pub message: Option<String>,
}

/// The message of an access error naming the column selector that could not
/// be read.
pub open spec fn column_error_message(description: Seq<char>) -> Seq<char> {
    "column "@ + description + " could not be read"@
}

/// Holds exactly of the error a typed row access returns for a selector with
/// the given description: no status code, and a message naming the selector.
pub open spec fn is_column_error(error: Error, description: Seq<char>) -> bool {
    &&& error.code is None
    &&& error.message matches Some(message) && message@ == column_error_message(description)
}

/// Build the access error naming a column selector that could not be read.
pub fn column_error(description: String) -> (error: Error)
    ensures
        is_column_error(error, description@),
{
    let mut message = String::from_str("column ");
    message.append(description.as_str());
    message.append(" could not be read");
    Error { code: None, message: Some(message) }
}

} // verus!
