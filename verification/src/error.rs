//! The closed set of failures a dialog invocation can produce.

use vstd::prelude::*;

verus! {

/// Everything that can go wrong between dispatching a configured dialog
/// and handing a typed response back to the caller.
///
/// Every failure is returned to the caller; nothing is silently defaulted
/// and nothing is retried.
#[derive(Debug, PartialEq, Eq)]
pub enum Error {
    /// The backend returned a numeric code outside the accepted table of
    /// the style the dialog was configured with. Seeing this normally
    /// means a bug or platform drift, never an expected outcome.
    UnknownResponseCode(i32),

    /// Caller-supplied text contains an embedded NUL terminator and so
    /// cannot be represented as the null-terminated string the native
    /// backend expects.
    InvalidString,

    /// The out-of-process interpreter could not be launched; carries the
    /// text of the underlying launch error.
    ExternalProcessNotFound(String),

    /// The interpreter exited with a non-zero status; carries the
    /// diagnostic text it wrote to its error stream.
    ExternalProcessError(String),

    /// The interpreter's output was not valid text.
    OutputDecodeError,

    /// The interpreter's output, after stripping its trailing terminator,
    /// could not be parsed as a number.
    MalformedCode,
}

} // verus!
