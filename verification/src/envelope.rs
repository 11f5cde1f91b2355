//! The page of results that goes out to the client.

use crate::adapter::RawQueryResult;
use crate::failure::{FailureKind, FailureView, InternalCause, InternalCauseView};
use crate::pagination::{start_spec, valid_cursor, CursorView, PagingCursor};
use vstd::prelude::*;

verus! {

/// Number of pages that `total_count` items fill at `page_size` items a page:
/// the quotient, rounded up.
pub open spec fn total_pages_spec(total_count: nat, page_size: nat) -> nat
    recommends
        page_size > 0,
{
    if total_count % page_size == 0 {
        total_count / page_size
    } else {
        total_count / page_size + 1
    }
}

/// The rounded-up quotient is the least number of pages that hold every item,
/// and it is zero exactly when there is no item.
pub proof fn lemma_total_pages_is_ceiling(total_count: nat, page_size: nat)
    requires
        page_size > 0,
    ensures
        total_pages_spec(total_count, page_size) * page_size >= total_count,
        total_count > 0 ==> (total_pages_spec(total_count, page_size) - 1) * page_size
            < total_count,
        total_pages_spec(total_count, page_size) == 0 <==> total_count == 0,
{
    let q: nat = total_count / page_size;
    let r: nat = total_count % page_size;
    assert(total_count == page_size * q + r && 0 <= r < page_size) by (nonlinear_arith)
        requires
            q == total_count / page_size,
            r == total_count % page_size,
            page_size > 0,
    ;
    assert((q + 1) * page_size == q * page_size + page_size) by (nonlinear_arith);
    assert((q - 1) * page_size == q * page_size - page_size) by (nonlinear_arith);
    assert(page_size * q == q * page_size) by (nonlinear_arith);
    assert(q == 0 ==> q * page_size == 0) by (nonlinear_arith);
    assert(q > 0 ==> q * page_size >= page_size) by (nonlinear_arith)
        requires
            page_size > 0,
    ;
}

/// A page is one of the pages of a collection exactly when the collection
/// holds more items than lie before the page. So a remote side that respects
/// the window has nothing to return for a page beyond the last.
pub proof fn lemma_page_within_collection(cursor: CursorView, total_count: nat)
    requires
        valid_cursor(cursor),
    ensures
        cursor.page <= total_pages_spec(total_count, cursor.page_size) <==> start_spec(cursor)
            < total_count,
{
    let size: int = cursor.page_size as int;
    let before: int = cursor.page - 1;
    let pages: int = total_pages_spec(total_count, cursor.page_size) as int;
    lemma_total_pages_is_ceiling(total_count, cursor.page_size);
    if cursor.page <= pages {
        assert(before * size <= (pages - 1) * size) by (nonlinear_arith)
            requires
                0 <= before <= pages - 1,
                size > 0,
        ;
    } else {
        assert(before * size >= pages * size) by (nonlinear_arith)
            requires
                before >= pages >= 0,
                size > 0,
        ;
    }
}

/// Counts the pages that `total_count` items fill at `page_size` items a page.
pub fn total_pages(total_count: u64, page_size: u32) -> (pages: u64)
    requires
        page_size > 0,
    ensures
        pages == total_pages_spec(total_count as nat, page_size as nat),
        pages == 0 <==> total_count == 0,
{
    let size: u64 = page_size as u64;
    let full: u64 = total_count / size;
    proof {
        lemma_total_pages_is_ceiling(total_count as nat, page_size as nat);
    }
    if total_count % size == 0 {
        full
    } else {
        assert(full < u64::MAX) by (nonlinear_arith)
            requires
                full == total_count / size,
                total_count % size != 0,
                size > 0,
                total_count <= u64::MAX,
        ;
        full + 1
    }
}

/// One page of a collection, ready to go out: the projected items and the
/// numbers that tell the client where the page lies.
#[derive(Clone, Debug, PartialEq, Eq)]
pub struct PaginatedEnvelope<D> {
    /// The items of the page, in the remote side's order.
    pub items: Vec<D>,
    /// The page, counted from one.
    pub page: u32,
    /// The number of items on a full page.
    pub page_size: u32,
    /// The size of the whole collection.
    pub total_items: u64,
    /// The number of pages that the whole collection fills.
    pub total_pages: u64,
}

impl<D> PaginatedEnvelope<D> {
    /// What holds of every envelope that [`build`] makes: the numbers of a valid
    /// cursor, a page count that is the rounded-up quotient of the collection's
    /// size by the page size, no more items than a page admits, and no item at
    /// all on a page beyond the last.
    pub open spec fn wf(&self) -> bool {
        &&& valid_cursor(CursorView { page: self.page as nat, page_size: self.page_size as nat })
        &&& self.total_pages == total_pages_spec(self.total_items as nat, self.page_size as nat)
        &&& self.items@.len() <= self.page_size
        &&& self.page > self.total_pages ==> self.items@.len() == 0
    }
}

/// True when `project` can accept `item`, whatever it makes of it.
pub open spec fn accepts<R, D, F: Fn(R) -> Result<D, String>>(project: F, item: R) -> bool {
    exists|dto: D| #[trigger] call_ensures(project, (item,), Ok::<D, String>(dto))
}

/// True when `project` accepted every item before the one at `index` and
/// turned that one down with `reason`.
pub open spec fn first_rejected<R, D, F: Fn(R) -> Result<D, String>>(
    items: Seq<R>,
    project: F,
    index: int,
    reason: String,
) -> bool {
    &&& 0 <= index < items.len()
    &&& call_ensures(project, (items[index],), Err::<D, String>(reason))
    &&& forall|j: int| 0 <= j < index ==> #[trigger] accepts::<R, D, F>(project, items[j])
}

/// What [`build`] makes of a cursor, a raw result and a projection.
///
/// The result is an envelope exactly when the raw result fits the cursor's
/// window and no item that had to be projected was turned down. The envelope
/// repeats the cursor's numbers and the collection's size. On a page beyond
/// the last it is empty and nothing is projected; on any other page it holds
/// one projected item for each raw item, in the same order.
pub open spec fn built_from<R, D, F: Fn(R) -> Result<D, String>>(
    cursor: CursorView,
    raw: RawQueryResult<R>,
    project: F,
    built: Result<PaginatedEnvelope<D>, FailureKind>,
) -> bool {
    let pages: nat = total_pages_spec(raw.total_count as nat, cursor.page_size);
    match built {
        Ok(envelope) => {
            &&& raw.fits(cursor)
            &&& envelope.wf()
            &&& envelope.page == cursor.page
            &&& envelope.page_size == cursor.page_size
            &&& envelope.total_items == raw.total_count
            &&& envelope.total_pages == pages
            &&& cursor.page > pages ==> envelope.items@.len() == 0
            &&& cursor.page <= pages ==> {
                &&& envelope.items@.len() == raw.items@.len()
                &&& forall|i: int|
                    0 <= i < raw.items@.len() ==> call_ensures(
                        project,
                        (raw.items@[i],),
                        Ok::<D, String>(#[trigger] envelope.items@[i]),
                    )
            }
        },
        Err(failure) => {
            ||| {
                &&& !raw.fits(cursor)
                &&& failure@ == FailureView::Internal(InternalCauseView::WindowExceeded)
            }
            ||| {
                &&& raw.fits(cursor)
                &&& cursor.page <= pages
                &&& failure matches FailureKind::Internal(InternalCause::Projection(reason))
                &&& exists|i: int| #[trigger] first_rejected::<R, D, F>(raw.items@, project, i, reason)
            }
        },
    }
}

/// Applies `project` to each item in turn and stops at the first item that it
/// turns down.
fn project_all<R, D, F>(items: Vec<R>, project: &F) -> (projected: Result<Vec<D>, String>) where
    F: Fn(R) -> Result<D, String>,

    requires
        forall|i: int| 0 <= i < items@.len() ==> call_requires(project, (#[trigger] items@[i],)),
    ensures
        match projected {
            Ok(out) => {
                &&& out@.len() == items@.len()
                &&& forall|i: int|
                    0 <= i < items@.len() ==> call_ensures(
                        project,
                        (items@[i],),
                        Ok::<D, String>(#[trigger] out@[i]),
                    )
            },
            Err(reason) => exists|i: int| #[trigger] first_rejected::<R, D, F>(items@, *project, i, reason),
        },
{
    let mut out: Vec<D> = Vec::new();
    for item in source: items
        invariant
            source.seq() == items@,
            out@.len() == source.index(),
            forall|i: int| 0 <= i < items@.len() ==> call_requires(project, (#[trigger] items@[i],)),
            forall|i: int|
                0 <= i < out@.len() ==> call_ensures(
                    project,
                    (items@[i],),
                    Ok::<D, String>(#[trigger] out@[i]),
                ),
    {
        match project(item) {
            Ok(dto) => {
                out.push(dto);
            },
            Err(reason) => {
                let rejected: Result<Vec<D>, String> = Err(reason);
                proof {
                    let index: int = out@.len() as int;
                    assert forall|j: int| 0 <= j < index implies #[trigger] accepts::<R, D, F>(
                        *project,
                        items@[j],
                    ) by {
                        assert(call_ensures(project, (items@[j],), Ok::<D, String>(out@[j])));
                    }
                    assert(first_rejected::<R, D, F>(items@, *project, index, rejected->Err_0));
                }
                return rejected;
            },
        }
    }
    Ok(out)
}

/// Assembles the response to a collection query.
///
/// A raw result with more items than the cursor's page admits is turned down
/// as an internal failure. Otherwise the page count is computed from the
/// collection's size; a page beyond the last yields an empty envelope, which
/// is a success, since a collection may shrink between two requests. On any
/// other page each item is projected in order, and the first item that the
/// projection turns down fails the whole response: no envelope is partial.
pub fn build<R, D, F>(cursor: &PagingCursor, raw: RawQueryResult<R>, project: F) -> (built: Result<
    PaginatedEnvelope<D>,
    FailureKind,
>) where F: Fn(R) -> Result<D, String>
    requires
        forall|i: int|
            0 <= i < raw.items@.len() ==> call_requires(project, (#[trigger] raw.items@[i],)),
    ensures
        built_from(cursor@, raw, project, built),
        built is Ok ==> raw.items@.len() <= cursor@.page_size,
        built matches Ok(envelope) ==> envelope.total_pages == total_pages_spec(
            raw.total_count as nat,
            cursor@.page_size,
        ) && (envelope.total_pages == 0 <==> raw.total_count == 0),
        raw.fits(cursor@) && cursor@.page > total_pages_spec(
            raw.total_count as nat,
            cursor@.page_size,
        ) ==> built is Ok && built->Ok_0.items@.len() == 0,
{
    let page: u32 = cursor.page();
    let page_size: u32 = cursor.page_size();
    let RawQueryResult { items, total_count } = raw;
    if items.len() > page_size as usize {
        return Err(FailureKind::Internal(InternalCause::WindowExceeded));
    }
    let pages: u64 = total_pages(total_count, page_size);
    if page as u64 > pages {
        return Ok(
            PaginatedEnvelope {
                items: Vec::new(),
                page,
                page_size,
                total_items: total_count,
                total_pages: pages,
            },
        );
    }
    match project_all(items, &project) {
        Ok(projected) => Ok(
            PaginatedEnvelope {
                items: projected,
                page,
                page_size,
                total_items: total_count,
                total_pages: pages,
            },
        ),
        Err(reason) => Err(FailureKind::Internal(InternalCause::Projection(reason))),
    }
}

} // verus!
