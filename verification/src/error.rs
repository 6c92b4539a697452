//! The errors that a request can end in.
use crate::text::{decimal, decimal_text};
use vstd::prelude::*;

verus! {

/// Why a request failed, with a message.
#[derive(Debug, PartialEq, Eq)]
pub enum ProxyError {
    /// Something is wrong with the proxy itself.
    Internal(String),
    /// JSON could not be read, could not be written, or lacks what it must hold.
    Json(String),
    /// The backend could not be reached or did not answer as it should.
    Upstream(String),
}

/// A `ProxyError` as a mathematical object.
pub enum ErrorView {
    Internal(Seq<char>),
    Json(Seq<char>),
    Upstream(Seq<char>),
}

impl View for ProxyError {
    type V = ErrorView;

    open spec fn view(&self) -> ErrorView {
        match self {
            ProxyError::Internal(message) => ErrorView::Internal(message@),
            ProxyError::Json(message) => ErrorView::Json(message@),
            ProxyError::Upstream(message) => ErrorView::Upstream(message@),
        }
    }
}

/// The status of an answer says that the request succeeded.
pub open spec fn is_success(status: u16) -> bool {
    200 <= status < 300
}

/// Whether the status of an answer says that the request succeeded.
pub fn succeeded(status: u16) -> (success: bool)
    ensures
        success == is_success(status),
{
    200 <= status && status < 300
}

/// The error of a request that the backend refused with that status.
pub open spec fn refusal(what: Seq<char>, status: u16) -> ErrorView {
    ErrorView::Upstream(what + ": status "@ + decimal(status as nat))
}

/// The error of a request that the backend refused with that status.
pub fn refused(what: &str, status: u16) -> (error: ProxyError)
    ensures
        error@ == refusal(what@, status),
{
    let numeral = decimal_text(status as usize);
    ProxyError::Upstream(what.to_owned().concat(": status ").concat(numeral.as_str()))
}

} // verus!
