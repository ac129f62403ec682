//! The errors the HTTP server answers with, and the texts of its error pages.
use vstd::prelude::*;

verus! {

/// An error answer: either one with an explicit HTTP status and a message,
/// or a "not found" answer with a message.
#[derive(Debug, PartialEq)]
pub enum ServerError {
    Custom(u16, String),
    NotFound(String),
}

/// The HTTP status of an internal server error.
pub open spec fn internal_error_status() -> u16 {
    500
}

/// An internal server error (status 500) carrying `err` as its message.
pub fn map_to_500(err: &str) -> (res: ServerError)
    ensures
        res matches ServerError::Custom(status, msg) && status == internal_error_status() && msg@ == err@,
        res matches ServerError::Custom(status, _) && status == 500,
{
    ServerError::Custom(500, err.to_owned())
}

/// A "not found" answer (status 404) carrying `err` as its message.
pub fn map_to_404(err: &str) -> (res: ServerError)
    ensures
        res matches ServerError::NotFound(msg) && msg@ == err@,
{
    ServerError::NotFound(err.to_owned())
}

/// The body of the page for an internal server error.
pub fn internal_error() -> (res: &'static str)
    ensures
        res@ == "Error 500; something is not clicking right."@,
{
    "Error 500; something is not clicking right."
}

/// The body of the page for a path that is not found.
pub fn not_found() -> (res: &'static str)
    ensures
        res@ == "Error 404; nothing here fren."@,
{
    "Error 404; nothing here fren."
}

/// The body of the page for any other error: the status, then the requested
/// URI in parentheses.
pub fn default_error_page(status: &str, uri: &str) -> (res: String)
    ensures
        res@ == status@ + " ("@ + uri@ + ")"@,
{
    let mut page = status.to_owned();
    page.append(" (");
    page.append(uri);
    page.append(")");
    page
}

} // verus!
