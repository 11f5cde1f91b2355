//! The decisions of one request, from its parameters to its response.
//!
//! A request passes once through these steps: its parameters are parsed, the
//! remote ledger is queried once, and the outcome of that query is either
//! classified as a failure or built into a response. The query itself is made
//! by the caller, between [`begin_collection`] and [`finish_collection`], or
//! before [`finish_lookup`]. Nothing here asks for a second query.

use crate::adapter::{window_spec, AdapterFailure, RawQueryResult, Window};
use crate::envelope::{build, built_from, total_pages_spec, PaginatedEnvelope};
use crate::failure::{
    classify, classify_spec, status_code_spec, ClassifyMode, FailureKind, FailureView,
    InternalCause, STATUS_OK,
};
use crate::pagination::{
    parse_spec, raw_view, requested_page_size, valid_cursor, PaginationRequest, PagingCursor,
};
use vstd::prelude::*;

verus! {

/// What the handler of a collection request does once the parameters have
/// been read.
#[derive(Clone, Debug, PartialEq, Eq)]
pub enum NextStep {
    /// Query the remote ledger once, for this window, and come back with the
    /// outcome and the cursor.
    Execute { cursor: PagingCursor, window: Window },
    /// Answer with this failure. The remote ledger is not queried.
    Respond(FailureKind),
}

/// Reads the pagination parameters of a collection request and says what to
/// do next: query the remote ledger for the window of the cursor, or answer
/// at once with the reason why the parameters were turned down. The remote
/// ledger is queried only for parameters that denote a cursor.
pub fn begin_collection(raw_page: Option<&str>, raw_page_size: Option<&str>) -> (step: NextStep)
    ensures
        match parse_spec(raw_view(raw_page), raw_view(raw_page_size)) {
            Ok(denoted) => {
                &&& step matches NextStep::Execute { cursor, window }
                &&& cursor@ == denoted
                &&& valid_cursor(denoted)
                &&& window == window_spec(denoted)
                &&& window.start == (denoted.page - 1) * denoted.page_size
                &&& window.limit == denoted.page_size
            },
            Err(reason) => {
                &&& step matches NextStep::Respond(failure)
                &&& failure@ == FailureView::BadRequest(reason)
            },
        },
        requested_page_size(raw_view(raw_page_size)) is None ==> step is Respond,
{
    match PaginationRequest::parse(raw_page, raw_page_size) {
        Ok(cursor) => {
            let window = Window { start: cursor.start(), limit: cursor.page_size() };
            NextStep::Execute { cursor, window }
        },
        Err(failure) => NextStep::Respond(failure),
    }
}

/// Turns the outcome of a collection query into the response: a failed query
/// is internal, whatever the failure, and an answered one is built into an
/// envelope as [`build`] does.
pub fn finish_collection<R, D, F>(
    cursor: &PagingCursor,
    outcome: Result<RawQueryResult<R>, AdapterFailure>,
    project: F,
) -> (finished: Result<PaginatedEnvelope<D>, FailureKind>) where F: Fn(R) -> Result<D, String>
    requires
        outcome matches Ok(raw) ==> forall|i: int|
            0 <= i < raw.items@.len() ==> call_requires(project, (#[trigger] raw.items@[i],)),
    ensures
        match outcome {
            Ok(raw) => {
                &&& built_from(cursor@, raw, project, finished)
                &&& raw.fits(cursor@) && cursor@.page > total_pages_spec(
                    raw.total_count as nat,
                    cursor@.page_size,
                ) ==> finished is Ok && finished->Ok_0.items@.len() == 0
            },
            Err(failure) => {
                &&& finished matches Err(kind)
                &&& kind == FailureKind::Internal(InternalCause::Adapter(failure))
                &&& kind@ == classify_spec(failure@, ClassifyMode::ExpectAny)
            },
        },
{
    match outcome {
        Ok(raw) => build(cursor, raw, project),
        Err(failure) => Err(classify(failure, ClassifyMode::ExpectAny)),
    }
}

/// Turns the outcome of a lookup into the response: "entity not found" becomes
/// [`FailureKind::NotFound`], any other failure of the query is internal, and
/// an entity that was found is projected.
pub fn finish_lookup<R, D, F>(outcome: Result<R, AdapterFailure>, project: F) -> (finished: Result<
    D,
    FailureKind,
>) where F: Fn(R) -> Result<D, String>
    requires
        outcome matches Ok(entity) ==> call_requires(project, (entity,)),
    ensures
        match outcome {
            Ok(entity) => match finished {
                Ok(dto) => call_ensures(project, (entity,), Ok::<D, String>(dto)),
                Err(kind) => {
                    &&& kind matches FailureKind::Internal(InternalCause::Projection(reason))
                    &&& call_ensures(project, (entity,), Err::<D, String>(reason))
                },
            },
            Err(failure) => {
                &&& finished matches Err(kind)
                &&& kind@ == classify_spec(failure@, ClassifyMode::ExpectFind)
                &&& failure is EntityNotFound <==> kind is NotFound
                &&& kind matches FailureKind::Internal(cause) ==> cause == InternalCause::Adapter(
                    failure,
                )
            },
        },
{
    match outcome {
        Ok(entity) => match project(entity) {
            Ok(dto) => Ok(dto),
            Err(reason) => Err(FailureKind::Internal(InternalCause::Projection(reason))),
        },
        Err(failure) => Err(classify(failure, ClassifyMode::ExpectFind)),
    }
}

/// The HTTP status of the response to a request that ended in `outcome`: 200
/// for a page or an entity, and the failure's own status otherwise.
pub fn response_status<T>(outcome: &Result<T, FailureKind>) -> (status: u16)
    ensures
        match outcome {
            Ok(_) => status == STATUS_OK,
            Err(failure) => status == status_code_spec(failure@),
        },
{
    match outcome {
        Ok(_) => STATUS_OK,
        Err(failure) => failure.status_code(),
    }
}

} // verus!
