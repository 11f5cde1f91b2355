//! What goes to the remote ledger and what comes back from it.
//!
//! The call itself is made outside this library, once per request and never
//! again for the same request: a collection may change between two calls, and
//! a second windowed query could shift or repeat the page boundary.

use crate::pagination::{start_spec, CursorView, PagingCursor};
use vstd::prelude::*;

verus! {

/// How a call to the remote ledger failed. Each variant keeps the remote
/// side's own description of the failure, for the server's log.
#[derive(Clone, Debug, PartialEq, Eq)]
pub enum AdapterFailure {
    /// The query engine reported that the entity asked for does not exist.
    EntityNotFound(String),
    /// Any other structured failure reported by the query engine.
    Query(String),
    /// The call did not get a well-formed answer: a timeout, a refused
    /// connection, a response that could not be decoded.
    Transport(String),
}

/// Mathematical model of [`AdapterFailure`].
pub ghost enum AdapterFailureView {
    EntityNotFound(Seq<char>),
    Query(Seq<char>),
    Transport(Seq<char>),
}

impl View for AdapterFailure {
    type V = AdapterFailureView;

    open spec fn view(&self) -> AdapterFailureView {
        match self {
            AdapterFailure::EntityNotFound(detail) => AdapterFailureView::EntityNotFound(detail@),
            AdapterFailure::Query(detail) => AdapterFailureView::Query(detail@),
            AdapterFailure::Transport(detail) => AdapterFailureView::Transport(detail@),
        }
    }
}

/// The part of a collection that a windowed query asks the remote side for.
#[derive(Clone, Copy, Debug, PartialEq, Eq)]
pub struct Window {
    /// Number of items to skip.
    pub start: u64,
    /// Largest number of items to return.
    pub limit: u32,
}

/// The window of a cursor's page.
pub open spec fn window_spec(cursor: CursorView) -> Window {
    Window { start: start_spec(cursor) as u64, limit: cursor.page_size as u32 }
}

/// Translates an optional cursor into the window of the query: the cursor's
/// page when there is one, no window at all when there is none.
pub fn window_for(cursor: Option<&PagingCursor>) -> (window: Option<Window>)
    ensures
        match cursor {
            Some(cursor) => {
                &&& window == Some(window_spec(cursor@))
                &&& window->0.start == (cursor@.page - 1) * cursor@.page_size
                &&& window->0.limit == cursor@.page_size
            },
            None => window is None,
        },
{
    match cursor {
        Some(cursor) => Some(Window { start: cursor.start(), limit: cursor.page_size() }),
        None => None,
    }
}

/// What the remote side answers to one query: the items of the window asked
/// for, in the remote side's order, and the size of the whole collection.
#[derive(Clone, Debug, PartialEq, Eq)]
pub struct RawQueryResult<T> {
    /// The items, in the order in which the remote side returned them.
    pub items: Vec<T>,
    /// How many items the whole collection held when the query ran.
    pub total_count: u64,
}

impl<T> RawQueryResult<T> {
    /// True when the result holds no more items than a page of the cursor
    /// admits, which is what a remote side that respects the window returns.
    pub open spec fn fits(&self, cursor: CursorView) -> bool {
        self.items@.len() <= cursor.page_size
    }
}

} // verus!
