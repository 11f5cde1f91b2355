//! Failures of the remote call and the taxonomy that clients get to see.

use crate::adapter::{AdapterFailure, AdapterFailureView};
use vstd::prelude::*;

verus! {

/// What lies behind an internal failure. It is kept for diagnostics on the
/// server and never shown to a client.
#[derive(Clone, Debug, PartialEq, Eq)]
pub enum InternalCause {
    /// The remote call failed; the failure is kept as it arrived.
    Adapter(AdapterFailure),
    /// An item of the result could not be projected; the projector's reason.
    Projection(String),
    /// The remote side answered a windowed query with more items than the
    /// window admits.
    WindowExceeded,
    /// Any other server-side error, by its description.
    Other(String),
}

/// Mathematical model of [`InternalCause`].
pub ghost enum InternalCauseView {
    Adapter(AdapterFailureView),
    Projection(Seq<char>),
    WindowExceeded,
    Other(Seq<char>),
}

impl View for InternalCause {
    type V = InternalCauseView;

    open spec fn view(&self) -> InternalCauseView {
        match self {
            InternalCause::Adapter(failure) => InternalCauseView::Adapter(failure@),
            InternalCause::Projection(reason) => InternalCauseView::Projection(reason@),
            InternalCause::WindowExceeded => InternalCauseView::WindowExceeded,
            InternalCause::Other(message) => InternalCauseView::Other(message@),
        }
    }
}

/// The line that the server's log gets for the cause of an internal failure.
pub open spec fn describe_spec(cause: InternalCauseView) -> Seq<char> {
    match cause {
        InternalCauseView::Adapter(AdapterFailureView::EntityNotFound(detail)) => {
            "Ledger query error: "@ + detail
        },
        InternalCauseView::Adapter(AdapterFailureView::Query(detail)) => {
            "Ledger query error: "@ + detail
        },
        InternalCauseView::Adapter(AdapterFailureView::Transport(detail)) => {
            "Unexpected query error: "@ + detail
        },
        InternalCauseView::Projection(reason) => "Failed to project a query result: "@ + reason,
        InternalCauseView::WindowExceeded => {
            "The ledger returned more items than the requested page holds"@
        },
        InternalCauseView::Other(message) => message,
    }
}

impl InternalCause {
    /// Describes the cause for the server's log, with the detail that it
    /// carries. No response holds this text.
    pub fn describe(&self) -> (line: String)
        ensures
            line@ == describe_spec(self@),
    {
        match self {
            InternalCause::Adapter(AdapterFailure::EntityNotFound(detail)) => String::from_str(
                "Ledger query error: ",
            ).concat(detail.as_str()),
            InternalCause::Adapter(AdapterFailure::Query(detail)) => String::from_str(
                "Ledger query error: ",
            ).concat(detail.as_str()),
            InternalCause::Adapter(AdapterFailure::Transport(detail)) => String::from_str(
                "Unexpected query error: ",
            ).concat(detail.as_str()),
            InternalCause::Projection(reason) => String::from_str(
                "Failed to project a query result: ",
            ).concat(reason.as_str()),
            InternalCause::WindowExceeded => String::from_str(
                "The ledger returned more items than the requested page holds",
            ),
            InternalCause::Other(message) => message.clone(),
        }
    }
}

/// The closed set of failures that a request can end in.
#[derive(Clone, Debug, PartialEq, Eq)]
pub enum FailureKind {
    /// The client's input was malformed; the text says how.
    BadRequest(String),
    /// A single entity was asked for and does not exist.
    NotFound,
    /// Everything else. The cause stays on the server.
    Internal(InternalCause),
}

/// Mathematical model of [`FailureKind`].
pub ghost enum FailureView {
    BadRequest(Seq<char>),
    NotFound,
    Internal(InternalCauseView),
}

impl View for FailureKind {
    type V = FailureView;

    open spec fn view(&self) -> FailureView {
        match self {
            FailureKind::BadRequest(reason) => FailureView::BadRequest(reason@),
            FailureKind::NotFound => FailureView::NotFound,
            FailureKind::Internal(cause) => FailureView::Internal(cause@),
        }
    }
}

/// What the call site expects of the remote call, which decides how its
/// failures are read.
#[derive(Clone, Copy, Debug, PartialEq, Eq)]
pub enum ClassifyMode {
    /// A single entity is looked up: "not found" is a legitimate answer.
    ExpectFind,
    /// A collection is scanned: an empty collection is a success, so no
    /// failure of the call is a legitimate answer.
    ExpectAny,
}

/// The failure that a client sees for a failed remote call.
pub open spec fn classify_spec(failure: AdapterFailureView, mode: ClassifyMode) -> FailureView {
    if mode is ExpectFind && failure is EntityNotFound {
        FailureView::NotFound
    } else {
        FailureView::Internal(InternalCauseView::Adapter(failure))
    }
}

/// Classifies a failed remote call according to the call site's intent.
///
/// Only a lookup turns "entity not found" into [`FailureKind::NotFound`].
/// Every other combination is internal and keeps the failure as its cause.
pub fn classify(failure: AdapterFailure, mode: ClassifyMode) -> (kind: FailureKind)
    ensures
        kind@ == classify_spec(failure@, mode),
        kind is NotFound <==> mode is ExpectFind && failure is EntityNotFound,
        mode is ExpectFind && !(failure is EntityNotFound) ==> kind is Internal,
        mode is ExpectAny ==> kind is Internal,
        kind matches FailureKind::Internal(cause) ==> cause == InternalCause::Adapter(failure),
        !(kind is BadRequest),
{
    match mode {
        ClassifyMode::ExpectFind => match failure {
            AdapterFailure::EntityNotFound(_) => FailureKind::NotFound,
            other => FailureKind::Internal(InternalCause::Adapter(other)),
        },
        ClassifyMode::ExpectAny => FailureKind::Internal(InternalCause::Adapter(failure)),
    }
}

/// Status of a response that carries a page or an entity.
pub const STATUS_OK: u16 = 200;

/// Status of a response to malformed client input.
pub const STATUS_BAD_REQUEST: u16 = 400;

/// Status of a response to a lookup of something that does not exist.
pub const STATUS_NOT_FOUND: u16 = 404;

/// Status of a response to any failure on the server's side.
pub const STATUS_INTERNAL_SERVER_ERROR: u16 = 500;

/// The HTTP status that goes with a failure.
pub open spec fn status_code_spec(kind: FailureView) -> u16 {
    match kind {
        FailureView::BadRequest(_) => STATUS_BAD_REQUEST,
        FailureView::NotFound => STATUS_NOT_FOUND,
        FailureView::Internal(_) => STATUS_INTERNAL_SERVER_ERROR,
    }
}

/// The response body that goes with a failure. An internal failure has one
/// fixed body, whatever its cause.
pub open spec fn response_body_spec(kind: FailureView) -> Seq<char> {
    match kind {
        FailureView::BadRequest(reason) => "Bad Request: "@ + reason,
        FailureView::NotFound => "Not Found"@,
        FailureView::Internal(_) => "Internal Server Error"@,
    }
}

impl FailureKind {
    /// Reads the failure of a lookup: "entity not found" becomes
    /// [`FailureKind::NotFound`], anything else is internal.
    pub fn expect_find_error(failure: AdapterFailure) -> (kind: FailureKind)
        ensures
            kind@ == classify_spec(failure@, ClassifyMode::ExpectFind),
            failure is EntityNotFound <==> kind is NotFound,
            !(failure is EntityNotFound) <==> kind is Internal,
            kind matches FailureKind::Internal(cause) ==> cause == InternalCause::Adapter(failure),
    {
        classify(failure, ClassifyMode::ExpectFind)
    }

    /// Reads the failure of a collection scan: it is internal, whatever it is.
    pub fn expect_any_error(failure: AdapterFailure) -> (kind: FailureKind)
        ensures
            kind@ == classify_spec(failure@, ClassifyMode::ExpectAny),
            kind == FailureKind::Internal(InternalCause::Adapter(failure)),
    {
        classify(failure, ClassifyMode::ExpectAny)
    }

    /// The failure for a query string that the HTTP layer could not decode.
    pub fn bad_query(detail: &str) -> (kind: FailureKind)
        ensures
            kind@ == FailureView::BadRequest("Bad query: "@ + detail@),
    {
        FailureKind::BadRequest(String::from_str("Bad query: ").concat(detail))
    }

    /// An internal failure that did not come from the remote call.
    pub fn internal(message: &str) -> (kind: FailureKind)
        ensures
            kind@ == FailureView::Internal(InternalCauseView::Other(message@)),
    {
        FailureKind::Internal(InternalCause::Other(String::from_str(message)))
    }

    /// The HTTP status of the response to this failure.
    pub fn status_code(&self) -> (status: u16)
        ensures
            status == status_code_spec(self@),
            self is BadRequest ==> status == 400,
            self is NotFound ==> status == 404,
            self is Internal ==> status == 500,
    {
        match self {
            FailureKind::BadRequest(_) => STATUS_BAD_REQUEST,
            FailureKind::NotFound => STATUS_NOT_FOUND,
            FailureKind::Internal(_) => STATUS_INTERNAL_SERVER_ERROR,
        }
    }

    /// The body of the response to this failure. The cause of an internal
    /// failure is left out of it.
    pub fn response_body(&self) -> (body: String)
        ensures
            body@ == response_body_spec(self@),
    {
        match self {
            FailureKind::BadRequest(reason) => String::from_str("Bad Request: ").concat(
                reason.as_str(),
            ),
            FailureKind::NotFound => String::from_str("Not Found"),
            FailureKind::Internal(_) => String::from_str("Internal Server Error"),
        }
    }
}

} // verus!
