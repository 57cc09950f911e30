use cloudflare::envelope::{extract_result, Response, ResultInfo};
use cloudflare::errors::ApiError;
use cloudflare::pagination::{reject_page_param, take_page, PageCursor, PageStep};
use cloudflare::query::{build_query, u32_decimal};
use cloudflare::zones::select_zone_id;

fn page(items: Vec<u32>, info: ResultInfo) -> Response<Vec<u32>> {
    Response {
        result: Some(items),
        success: true,
        errors: vec![],
        messages: vec![],
        result_info: Some(info),
    }
}

#[test]
fn pagination_stops_on_exact_multiple() {
    let cursor: PageCursor<u32> = PageCursor::start();
    assert_eq!(cursor.query_string(), "page=1");

    let first: Vec<u32> = (0..20).collect();
    let step = cursor
        .step(page(
            first,
            ResultInfo { page: 1, per_page: 20, count: 20, total_count: 40 },
        ))
        .unwrap();
    let cursor = match step {
        PageStep::Next(c) => c,
        PageStep::Done(_) => panic!("walk stopped one page early"),
    };
    assert_eq!(cursor.query_string(), "page=2");

    let second: Vec<u32> = (20..40).collect();
    let step = cursor
        .step(page(
            second,
            ResultInfo { page: 2, per_page: 20, count: 20, total_count: 40 },
        ))
        .unwrap();
    match step {
        PageStep::Done(out) => {
            let expected: Vec<u32> = (0..40).collect();
            assert_eq!(out, expected);
        }
        PageStep::Next(_) => panic!("walk did not stop at the exact-multiple boundary"),
    }
}

#[test]
fn pagination_stops_on_partial_page() {
    let cursor: PageCursor<u32> = PageCursor::start();
    let items: Vec<u32> = (0..7).collect();
    let step = cursor
        .step(page(
            items,
            ResultInfo { page: 1, per_page: 20, count: 7, total_count: 7 },
        ))
        .unwrap();
    match step {
        PageStep::Done(out) => {
            let expected: Vec<u32> = (0..7).collect();
            assert_eq!(out, expected);
        }
        PageStep::Next(_) => panic!("walk did not stop at a partial page"),
    }
}

#[test]
fn pagination_rejects_unsuccessful_page() {
    let cursor: PageCursor<u32> = PageCursor::start();
    let response = Response {
        result: Some(vec![1u32, 2, 3]),
        success: false,
        errors: vec![],
        messages: vec![],
        result_info: Some(ResultInfo { page: 1, per_page: 20, count: 3, total_count: 3 }),
    };
    let step = cursor.step(response);
    assert!(matches!(step, Err(ApiError::NotSuccess)));
}

#[test]
fn pagination_requires_result_and_result_info() {
    let cursor: PageCursor<u32> = PageCursor::start();
    let response: Response<Vec<u32>> = Response {
        result: None,
        success: true,
        errors: vec![],
        messages: vec![],
        result_info: Some(ResultInfo { page: 1, per_page: 20, count: 0, total_count: 0 }),
    };
    assert!(matches!(cursor.step(response), Err(ApiError::NoResultsReturned)));

    let cursor: PageCursor<u32> = PageCursor::start();
    let response = Response {
        result: Some(vec![1u32]),
        success: true,
        errors: vec![],
        messages: vec![],
        result_info: None,
    };
    assert!(matches!(cursor.step(response), Err(ApiError::NoResultsReturned)));
}

#[test]
fn pagination_rejects_reserved_page_key() {
    let params = vec![("type", "A"), ("page", "2")];
    assert!(matches!(reject_page_param(&params), Err(ApiError::InvalidOptions)));

    let params = vec![("type", "A"), ("per_page", "20")];
    assert!(matches!(reject_page_param(&params), Ok(())));
}

#[test]
fn parameterized_pages_reuse_the_original_query() {
    let params = vec![("type", "CNAME"), ("match", "all")];
    let original = build_query(&params);
    assert_eq!(original, "type=CNAME&match=all");

    let cursor: PageCursor<u32> = PageCursor::start_with_query(original);
    assert_eq!(cursor.query_string(), "type=CNAME&match=all&page=1");

    let items: Vec<u32> = (0..20).collect();
    let step = cursor
        .step(page(
            items,
            ResultInfo { page: 1, per_page: 20, count: 20, total_count: 60 },
        ))
        .unwrap();
    match step {
        PageStep::Next(c) => assert_eq!(c.query_string(), "type=CNAME&match=all&page=2"),
        PageStep::Done(_) => panic!("walk stopped before the reported total"),
    }
}

#[test]
fn query_pairs_are_percent_encoded() {
    let params = vec![("name", "a b"), ("content", "1+1")];
    assert_eq!(build_query(&params), "name=a+b&content=1%2B1");
}

#[test]
fn page_numbers_format_in_decimal() {
    assert_eq!(u32_decimal(0), "0");
    assert_eq!(u32_decimal(7), "7");
    assert_eq!(u32_decimal(42), "42");
    assert_eq!(u32_decimal(1234567890), "1234567890");
    assert_eq!(u32_decimal(u32::MAX), "4294967295");
}

#[test]
fn rejected_envelope_wins_over_present_result() {
    let response = Response {
        result: Some(vec![String::from("zone")]),
        success: false,
        errors: vec![],
        messages: vec![],
        result_info: None,
    };
    assert!(matches!(extract_result(response), Err(ApiError::NotSuccess)));
}

#[test]
fn successful_envelope_without_result_is_no_results() {
    let response: Response<String> = Response {
        result: None,
        success: true,
        errors: vec![],
        messages: vec![],
        result_info: None,
    };
    assert!(matches!(extract_result(response), Err(ApiError::NoResultsReturned)));
}

#[test]
fn successful_envelope_hands_result_out() {
    let response = Response {
        result: Some(31u32),
        success: true,
        errors: vec![],
        messages: vec![],
        result_info: None,
    };
    assert_eq!(extract_result(response).unwrap(), 31);
}

#[test]
fn list_extraction_requires_a_result() {
    let response: Response<Vec<u32>> = Response {
        result: None,
        success: true,
        errors: vec![],
        messages: vec![],
        result_info: None,
    };
    assert!(matches!(extract_result(response), Err(ApiError::NoResultsReturned)));

    let response: Response<Vec<u32>> = Response {
        result: Some(vec![5, 6]),
        success: false,
        errors: vec![],
        messages: vec![],
        result_info: None,
    };
    assert!(matches!(extract_result(response), Err(ApiError::NotSuccess)));

    let response: Response<Vec<u32>> = Response {
        result: Some(vec![5, 6]),
        success: true,
        errors: vec![],
        messages: vec![],
        result_info: None,
    };
    assert_eq!(extract_result(response).unwrap(), vec![5, 6]);
}

#[test]
fn page_classification_needs_no_walk_state() {
    let response: Response<Vec<u32>> = Response {
        result: None,
        success: true,
        errors: vec![],
        messages: vec![],
        result_info: Some(ResultInfo { page: 1, per_page: 20, count: 0, total_count: 0 }),
    };
    assert!(matches!(take_page(response), Err(ApiError::NoResultsReturned)));

    let response = Response {
        result: Some(vec![9u32]),
        success: true,
        errors: vec![],
        messages: vec![],
        result_info: None,
    };
    assert!(matches!(take_page(response), Err(ApiError::NoResultsReturned)));

    let response = Response {
        result: Some(vec![9u32]),
        success: false,
        errors: vec![],
        messages: vec![],
        result_info: Some(ResultInfo { page: 1, per_page: 20, count: 1, total_count: 1 }),
    };
    assert!(matches!(take_page(response), Err(ApiError::NotSuccess)));

    let response = Response {
        result: Some(vec![9u32, 10]),
        success: true,
        errors: vec![],
        messages: vec![],
        result_info: Some(ResultInfo { page: 1, per_page: 20, count: 2, total_count: 2 }),
    };
    let (items, info) = take_page(response).unwrap();
    assert_eq!(items, vec![9, 10]);
    assert_eq!(info, ResultInfo { page: 1, per_page: 20, count: 2, total_count: 2 });
}

#[test]
fn zone_lookup_picks_the_first_match() {
    let ids = vec![String::from("zone-a"), String::from("zone-b")];
    assert_eq!(select_zone_id(ids).unwrap(), "zone-a");

    assert!(matches!(select_zone_id(Vec::new()), Err(ApiError::InvalidOptions)));
}

// Known inherited edge case: when the server reports `per_page == 0`, the
// partial-page test can never hold, and the exact-multiple test holds only
// when `total_count` is zero too; a nonzero total keeps the walk going.
#[test]
fn degenerate_per_page_relies_on_exact_multiple_rule() {
    let cursor: PageCursor<u32> = PageCursor::start();
    let step = cursor
        .step(page(
            vec![],
            ResultInfo { page: 1, per_page: 0, count: 0, total_count: 0 },
        ))
        .unwrap();
    assert!(matches!(step, PageStep::Done(_)));

    let cursor: PageCursor<u32> = PageCursor::start();
    let step = cursor
        .step(page(
            vec![],
            ResultInfo { page: 1, per_page: 0, count: 0, total_count: 5 },
        ))
        .unwrap();
    assert!(matches!(step, PageStep::Next(_)));
}
