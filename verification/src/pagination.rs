//! From raw `page` and `page_size` parameters to a validated cursor.

use crate::failure::{FailureKind, FailureView};
use crate::text::{decimal_value, is_decimal, parse_decimal};
use vstd::prelude::*;

verus! {

/// The page that is served when the request names none.
pub const DEFAULT_PAGE: u32 = 1;

/// The page size that is used when the request names none.
pub const DEFAULT_PAGE_SIZE: u32 = 15;

/// The largest page size that a request may ask for.
pub const MAX_PAGE_SIZE: u32 = 100;

/// Why a `page` parameter was turned down.
pub open spec fn page_reason() -> Seq<char> {
    "page must be a positive integer"@
}

/// Why a `page_size` parameter was turned down.
pub open spec fn page_size_reason() -> Seq<char> {
    "page_size must be an integer between 1 and 100"@
}

/// Mathematical model of a [`PagingCursor`].
pub ghost struct CursorView {
    pub page: nat,
    pub page_size: nat,
}

/// What every cursor satisfies: pages count from one, and a page holds at
/// least one item and at most [`MAX_PAGE_SIZE`].
pub open spec fn valid_cursor(cursor: CursorView) -> bool {
    &&& 1 <= cursor.page <= u32::MAX
    &&& 1 <= cursor.page_size <= MAX_PAGE_SIZE
}

/// Number of items that lie before the first item of the cursor's page.
pub open spec fn start_spec(cursor: CursorView) -> nat {
    ((cursor.page - 1) * cursor.page_size) as nat
}

/// The first page starts at the first item, and each page starts where the
/// page before it ends: the pages of one size tile the collection.
pub proof fn lemma_pages_are_adjacent(cursor: CursorView)
    requires
        valid_cursor(cursor),
    ensures
        cursor.page == 1 ==> start_spec(cursor) == 0,
        start_spec(CursorView { page: cursor.page + 1, page_size: cursor.page_size })
            == start_spec(cursor) + cursor.page_size,
{
    let size: int = cursor.page_size as int;
    let before: int = cursor.page - 1;
    assert((before + 1) * size == before * size + size) by (nonlinear_arith);
    assert(before * size >= 0 && (before == 0 ==> before * size == 0)) by (nonlinear_arith)
        requires
            before >= 0,
            size >= 0,
    ;
}

/// A validated `(page, page_size)` pair. It cannot be changed once made.
#[derive(Clone, Copy, Debug, PartialEq, Eq)]
pub struct PagingCursor {
    page: u32,
    page_size: u32,
}

impl View for PagingCursor {
    type V = CursorView;

    closed spec fn view(&self) -> CursorView {
        CursorView { page: self.page as nat, page_size: self.page_size as nat }
    }
}

impl PagingCursor {
    #[verifier::type_invariant]
    spec fn well_formed(self) -> bool {
        valid_cursor(self@)
    }

    /// Makes a cursor from numbers, turning down a page of zero and a page
    /// size outside `1..=MAX_PAGE_SIZE`. The page is looked at first.
    pub fn new(page: u32, page_size: u32) -> (made: Result<PagingCursor, FailureKind>)
        ensures
            match made {
                Ok(cursor) => {
                    &&& page >= 1
                    &&& 1 <= page_size <= MAX_PAGE_SIZE
                    &&& cursor@ == (CursorView { page: page as nat, page_size: page_size as nat })
                },
                Err(failure) => {
                    &&& page == 0 ==> failure@ == FailureView::BadRequest(page_reason())
                    &&& page != 0 ==> {
                        &&& !(1 <= page_size <= MAX_PAGE_SIZE)
                        &&& failure@ == FailureView::BadRequest(page_size_reason())
                    }
                },
            },
    {
        if page == 0 {
            Err(FailureKind::BadRequest(String::from_str("page must be a positive integer")))
        } else if page_size == 0 || page_size > MAX_PAGE_SIZE {
            Err(
                FailureKind::BadRequest(
                    String::from_str("page_size must be an integer between 1 and 100"),
                ),
            )
        } else {
            Ok(PagingCursor { page, page_size })
        }
    }

    /// The page, counted from one.
    pub fn page(&self) -> (page: u32)
        ensures
            page == self@.page,
            page >= 1,
    {
        proof {
            use_type_invariant(self);
        }
        self.page
    }

    /// The number of items on a full page.
    pub fn page_size(&self) -> (page_size: u32)
        ensures
            page_size == self@.page_size,
            1 <= page_size <= MAX_PAGE_SIZE,
    {
        proof {
            use_type_invariant(self);
        }
        self.page_size
    }

    /// The number of items that lie before the first item of this page.
    pub fn start(&self) -> (start: u64)
        ensures
            start == (self@.page - 1) * self@.page_size,
            start == start_spec(self@),
            valid_cursor(self@),
    {
        proof {
            use_type_invariant(self);
        }
        let before: u64 = (self.page - 1) as u64;
        let size: u64 = self.page_size as u64;
        assert(before * size <= 0xffff_ffff * 100) by (nonlinear_arith)
            requires
                0 <= before <= 0xffff_ffff,
                0 <= size <= 100,
        ;
        before * size
    }
}

/// The text of an optional parameter, if it was given.
pub open spec fn raw_view(raw: Option<&str>) -> Option<Seq<char>> {
    match raw {
        Some(text) => Some(text@),
        None => None,
    }
}

/// The page that a raw `page` parameter asks for: the default when it is
/// absent, its number when it is a numeral for a positive number that fits
/// the machine, and nothing otherwise.
pub open spec fn requested_page(raw: Option<Seq<char>>) -> Option<nat> {
    match raw {
        None => Some(DEFAULT_PAGE as nat),
        Some(text) => if is_decimal(text) && 1 <= decimal_value(text) <= u32::MAX {
            Some(decimal_value(text))
        } else {
            None
        },
    }
}

/// The page size that a raw `page_size` parameter asks for: the default when
/// it is absent, its number when it is a numeral in `1..=MAX_PAGE_SIZE`, and
/// nothing otherwise. A value out of range is never clamped.
pub open spec fn requested_page_size(raw: Option<Seq<char>>) -> Option<nat> {
    match raw {
        None => Some(DEFAULT_PAGE_SIZE as nat),
        Some(text) => if is_decimal(text) && 1 <= decimal_value(text) <= MAX_PAGE_SIZE {
            Some(decimal_value(text))
        } else {
            None
        },
    }
}

/// The cursor that a pair of raw parameters denotes, or the reason why the
/// request is turned down. The page is looked at first.
pub open spec fn parse_spec(raw_page: Option<Seq<char>>, raw_page_size: Option<Seq<char>>) -> Result<
    CursorView,
    Seq<char>,
> {
    match requested_page(raw_page) {
        None => Err(page_reason()),
        Some(page) => match requested_page_size(raw_page_size) {
            None => Err(page_size_reason()),
            Some(page_size) => Ok(CursorView { page, page_size }),
        },
    }
}

/// A `page_size` that is no numeral, or that denotes zero or more than
/// [`MAX_PAGE_SIZE`], is turned down whatever the `page` parameter holds, and
/// for its own reason unless the `page` parameter is turned down first.
pub proof fn lemma_bad_page_size_is_rejected(raw_page: Option<Seq<char>>, page_size: Seq<char>)
    requires
        !is_decimal(page_size) || decimal_value(page_size) == 0 || decimal_value(page_size)
            > MAX_PAGE_SIZE,
    ensures
        parse_spec(raw_page, Some(page_size)) is Err,
        requested_page(raw_page) is Some ==> parse_spec(raw_page, Some(page_size)) == Err::<
            CursorView,
            Seq<char>,
        >(page_size_reason()),
{
}

/// The pagination parameters of a request, as the client wrote them.
#[derive(Clone, Debug, PartialEq, Eq)]
pub struct PaginationRequest {
    /// The `page` parameter, if the request has one.
    pub page: Option<String>,
    /// The `page_size` parameter, if the request has one.
    pub page_size: Option<String>,
}

impl Default for PaginationRequest {
    /// A request that names neither a page nor a page size.
    fn default() -> (request: Self)
        ensures
            request.page is None,
            request.page_size is None,
    {
        PaginationRequest { page: None, page_size: None }
    }
}

/// The text of an optional owned parameter, if it was given.
pub open spec fn owned_view(raw: Option<String>) -> Option<Seq<char>> {
    match raw {
        Some(text) => Some(text@),
        None => None,
    }
}

impl PaginationRequest {
    /// The cursor that these parameters denote, as [`PaginationRequest::parse`]
    /// reads them.
    pub fn cursor(&self) -> (parsed: Result<PagingCursor, FailureKind>)
        ensures
            match parsed {
                Ok(cursor) => {
                    &&& parse_spec(owned_view(self.page), owned_view(self.page_size)) == Ok::<
                        CursorView,
                        Seq<char>,
                    >(cursor@)
                    &&& valid_cursor(cursor@)
                },
                Err(failure) => {
                    &&& failure matches FailureKind::BadRequest(reason)
                    &&& parse_spec(owned_view(self.page), owned_view(self.page_size)) == Err::<
                        CursorView,
                        Seq<char>,
                    >(reason@)
                },
            },
    {
        let raw_page: Option<&str> = match &self.page {
            Some(text) => Some(text.as_str()),
            None => None,
        };
        let raw_page_size: Option<&str> = match &self.page_size {
            Some(text) => Some(text.as_str()),
            None => None,
        };
        PaginationRequest::parse(raw_page, raw_page_size)
    }

    /// Turns the raw parameters of a request into a cursor, or into the
    /// [`FailureKind::BadRequest`] that tells the client what was wrong.
    pub fn parse(raw_page: Option<&str>, raw_page_size: Option<&str>) -> (parsed: Result<
        PagingCursor,
        FailureKind,
    >)
        ensures
            match parsed {
                Ok(cursor) => {
                    &&& parse_spec(raw_view(raw_page), raw_view(raw_page_size)) == Ok::<
                        CursorView,
                        Seq<char>,
                    >(cursor@)
                    &&& valid_cursor(cursor@)
                },
                Err(failure) => {
                    &&& failure matches FailureKind::BadRequest(reason)
                    &&& parse_spec(raw_view(raw_page), raw_view(raw_page_size)) == Err::<
                        CursorView,
                        Seq<char>,
                    >(reason@)
                },
            },
    {
        let page: u32 = match raw_page {
            None => DEFAULT_PAGE,
            Some(text) => match parse_decimal(text, u32::MAX) {
                Some(value) => value,
                None => 0,
            },
        };
        let page_size: u32 = match raw_page_size {
            None => DEFAULT_PAGE_SIZE,
            Some(text) => match parse_decimal(text, MAX_PAGE_SIZE) {
                Some(value) => value,
                None => 0,
            },
        };
        PagingCursor::new(page, page_size)
    }
}

} // verus!
