use ledger_gateway::adapter::{window_for, Window};
use ledger_gateway::failure::FailureKind;
use ledger_gateway::pagination::{
    PaginationRequest, PagingCursor, DEFAULT_PAGE, DEFAULT_PAGE_SIZE, MAX_PAGE_SIZE,
};
use ledger_gateway::text::parse_decimal;

fn bad_request(reason: &str) -> FailureKind {
    FailureKind::BadRequest(reason.to_string())
}

const PAGE_REASON: &str = "page must be a positive integer";
const PAGE_SIZE_REASON: &str = "page_size must be an integer between 1 and 100";

#[test]
fn absent_parameters_take_the_defaults() {
    let cursor = PaginationRequest::parse(None, None).unwrap();
    assert_eq!(cursor.page(), 1);
    assert_eq!(cursor.page(), DEFAULT_PAGE);
    assert_eq!(cursor.page_size(), DEFAULT_PAGE_SIZE);
    assert_eq!(cursor.start(), 0);
}

#[test]
fn absent_page_defaults_to_one() {
    let cursor = PaginationRequest::parse(None, Some("7")).unwrap();
    assert_eq!(cursor.page(), 1);
    assert_eq!(cursor.page_size(), 7);
}

#[test]
fn absent_page_size_defaults() {
    let cursor = PaginationRequest::parse(Some("3"), None).unwrap();
    assert_eq!(cursor.page(), 3);
    assert_eq!(cursor.page_size(), DEFAULT_PAGE_SIZE);
    assert_eq!(cursor.start(), 2 * u64::from(DEFAULT_PAGE_SIZE));
}

#[test]
fn start_is_pages_before_times_page_size() {
    let cursor = PaginationRequest::parse(Some("2"), Some("10")).unwrap();
    assert_eq!(cursor.start(), 10);
    let cursor = PaginationRequest::parse(Some("1"), Some("100")).unwrap();
    assert_eq!(cursor.start(), 0);
    let cursor = PaginationRequest::parse(Some("5"), Some("10")).unwrap();
    assert_eq!(cursor.start(), 40);
    let cursor = PaginationRequest::parse(Some("12"), Some("7")).unwrap();
    assert_eq!(cursor.start(), 77);
}

#[test]
fn start_holds_for_every_small_cursor() {
    for page in 1u32..=40 {
        for page_size in 1u32..=MAX_PAGE_SIZE {
            let cursor = PagingCursor::new(page, page_size).unwrap();
            assert_eq!(cursor.start(), u64::from(page - 1) * u64::from(page_size));
        }
    }
}

#[test]
fn start_does_not_overflow_on_the_last_page() {
    let cursor = PaginationRequest::parse(Some("4294967295"), Some("100")).unwrap();
    assert_eq!(cursor.page(), u32::MAX);
    assert_eq!(cursor.start(), 429_496_729_400);
}

#[test]
fn page_zero_is_rejected() {
    assert_eq!(PaginationRequest::parse(Some("0"), None), Err(bad_request(PAGE_REASON)));
    assert_eq!(PaginationRequest::parse(Some("000"), Some("10")), Err(bad_request(PAGE_REASON)));
}

#[test]
fn page_that_is_no_number_is_rejected() {
    for raw in ["", "abc", "-1", "+1", "1.5", " 1", "1 ", "1e3", "0x10", "١"] {
        assert_eq!(
            PaginationRequest::parse(Some(raw), Some("10")),
            Err(bad_request(PAGE_REASON)),
            "page {raw:?}"
        );
    }
}

#[test]
fn page_beyond_the_machine_is_rejected() {
    assert_eq!(PaginationRequest::parse(Some("4294967296"), None), Err(bad_request(PAGE_REASON)));
    assert_eq!(
        PaginationRequest::parse(Some("99999999999999999999999999999999999999"), None),
        Err(bad_request(PAGE_REASON))
    );
}

#[test]
fn page_size_zero_is_rejected() {
    assert_eq!(PaginationRequest::parse(None, Some("0")), Err(bad_request(PAGE_SIZE_REASON)));
    assert_eq!(PaginationRequest::parse(Some("3"), Some("00")), Err(bad_request(PAGE_SIZE_REASON)));
}

#[test]
fn negative_page_size_is_rejected() {
    assert_eq!(PaginationRequest::parse(None, Some("-1")), Err(bad_request(PAGE_SIZE_REASON)));
    assert_eq!(PaginationRequest::parse(None, Some("-10")), Err(bad_request(PAGE_SIZE_REASON)));
}

#[test]
fn page_size_that_is_no_number_is_rejected() {
    for raw in ["", "ten", "1O", "10;", "٣", "1\u{0660}"] {
        assert_eq!(
            PaginationRequest::parse(Some("1"), Some(raw)),
            Err(bad_request(PAGE_SIZE_REASON)),
            "page_size {raw:?}"
        );
    }
}

#[test]
fn page_size_is_rejected_and_never_clamped() {
    assert_eq!(MAX_PAGE_SIZE, 100);
    let cursor = PaginationRequest::parse(None, Some("100")).unwrap();
    assert_eq!(cursor.page_size(), 100);
    assert_eq!(PaginationRequest::parse(None, Some("101")), Err(bad_request(PAGE_SIZE_REASON)));
    assert_eq!(
        PaginationRequest::parse(None, Some("18446744073709551616")),
        Err(bad_request(PAGE_SIZE_REASON))
    );
}

#[test]
fn page_size_reason_names_the_limit() {
    let reason = match PaginationRequest::parse(None, Some("0")) {
        Err(FailureKind::BadRequest(reason)) => reason,
        other => panic!("unexpected {other:?}"),
    };
    assert!(reason.contains("page_size"));
    assert!(reason.contains(&MAX_PAGE_SIZE.to_string()));
}

#[test]
fn page_is_looked_at_first() {
    assert_eq!(PaginationRequest::parse(Some("x"), Some("y")), Err(bad_request(PAGE_REASON)));
}

#[test]
fn leading_zeros_are_read_as_digits() {
    let cursor = PaginationRequest::parse(Some("007"), Some("0000000000000000000000010")).unwrap();
    assert_eq!(cursor.page(), 7);
    assert_eq!(cursor.page_size(), 10);
}

#[test]
fn cursor_from_numbers() {
    let cursor = PagingCursor::new(2, 10).unwrap();
    assert_eq!((cursor.page(), cursor.page_size(), cursor.start()), (2, 10, 10));
    assert_eq!(PagingCursor::new(0, 10), Err(bad_request(PAGE_REASON)));
    assert_eq!(PagingCursor::new(0, 0), Err(bad_request(PAGE_REASON)));
    assert_eq!(PagingCursor::new(1, 0), Err(bad_request(PAGE_SIZE_REASON)));
    assert_eq!(PagingCursor::new(1, 101), Err(bad_request(PAGE_SIZE_REASON)));
    assert_eq!(PagingCursor::new(1, u32::MAX), Err(bad_request(PAGE_SIZE_REASON)));
}

#[test]
fn request_struct_reads_like_parse() {
    let request = PaginationRequest { page: Some("2".to_string()), page_size: Some("10".to_string()) };
    assert_eq!(request.cursor(), PaginationRequest::parse(Some("2"), Some("10")));
    let request = PaginationRequest { page: None, page_size: Some("0".to_string()) };
    assert_eq!(request.cursor(), Err(bad_request(PAGE_SIZE_REASON)));
    assert_eq!(PaginationRequest::default().cursor(), PaginationRequest::parse(None, None));
}

#[test]
fn window_of_a_cursor() {
    let cursor = PagingCursor::new(3, 20).unwrap();
    assert_eq!(window_for(Some(&cursor)), Some(Window { start: 40, limit: 20 }));
    let cursor = PagingCursor::new(1, 15).unwrap();
    assert_eq!(window_for(Some(&cursor)), Some(Window { start: 0, limit: 15 }));
}

#[test]
fn no_cursor_means_no_window() {
    assert_eq!(window_for(None), None);
}

#[test]
fn decimal_numerals() {
    assert_eq!(parse_decimal("0", 10), Some(0));
    assert_eq!(parse_decimal("10", 10), Some(10));
    assert_eq!(parse_decimal("11", 10), None);
    assert_eq!(parse_decimal("4294967295", u32::MAX), Some(u32::MAX));
    assert_eq!(parse_decimal("4294967296", u32::MAX), None);
    assert_eq!(parse_decimal("0004294967295", u32::MAX), Some(u32::MAX));
    assert_eq!(parse_decimal("", 10), None);
    assert_eq!(parse_decimal("-0", 10), None);
    assert_eq!(parse_decimal("1a", 10), None);
    assert_eq!(parse_decimal("a1", 10), None);
    assert_eq!(parse_decimal("/", 10), None);
    assert_eq!(parse_decimal(":", 10), None);
    assert_eq!(parse_decimal("é", 10), None);
    assert_eq!(parse_decimal("123", 1000), Some(123));
}

#[test]
fn pages_tile_the_collection() {
    for page_size in 1u32..=MAX_PAGE_SIZE {
        let first = PagingCursor::new(1, page_size).unwrap();
        assert_eq!(first.start(), 0);
        for page in 1u32..=30 {
            let here = PagingCursor::new(page, page_size).unwrap();
            let next = PagingCursor::new(page + 1, page_size).unwrap();
            assert_eq!(next.start(), here.start() + u64::from(page_size));
        }
    }
}
