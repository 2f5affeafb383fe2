//! The file accessor: whole-file reads and writes of UTF-8 text. The system
//! calls themselves happen outside this crate; these handlers interpret
//! their outcomes.

use vstd::prelude::*;
use vstd::string::*;

use crate::errors::RelayError;

verus! {

/// The fixed confirmation returned by a successful file write.
pub open spec fn write_success_text() -> Seq<char> {
    "File written successfully"@
}

/// Interprets the outcome of reading a whole file as UTF-8 text: the content
/// passes through exactly as read; a failure surfaces as `IOError` carrying
/// the underlying system error text.
pub fn read_file_outcome(outcome: Result<String, String>) -> (r: Result<String, RelayError>)
    ensures
        outcome matches Ok(t) ==> r == Ok::<String, RelayError>(t),
        outcome matches Err(e) ==> r == Err::<String, RelayError>(RelayError::IOError(e)),
{
    match outcome {
        Ok(t) => Ok(t),
        Err(e) => Err(RelayError::IOError(e)),
    }
}

/// Interprets the outcome of overwriting a whole file: success yields the
/// fixed confirmation string; a failure surfaces as `IOError` carrying the
/// underlying system error text.
pub fn write_file_outcome(outcome: Result<(), String>) -> (r: Result<String, RelayError>)
    ensures
        outcome is Ok ==> (r matches Ok(t) && t@ == write_success_text()),
        outcome matches Err(e) ==> r == Err::<String, RelayError>(RelayError::IOError(e)),
{
    match outcome {
        Ok(_) => Ok(String::from_str("File written successfully")),
        Err(e) => Err(RelayError::IOError(e)),
    }
}

} // verus!
