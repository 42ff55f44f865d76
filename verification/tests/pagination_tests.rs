use coinbase_v3::error::CbError;
use coinbase_v3::pagination::{paginate_canned, PageData, PageMode, Paginator};

fn page(items: Vec<u32>, has_next: bool, cursor: &str) -> Result<PageData<u32>, CbError> {
    Ok(PageData { items, has_next, cursor: cursor.to_string() })
}

#[test]
fn test_flag_pagination_three_pages() {
    // Three pages under the explicit-flag convention, plus a fourth that
    // must never be requested.
    let pages = vec![
        page(vec![1, 2, 3], true, "c1"),
        page(vec![4, 5], true, "c2"),
        page(vec![6], false, "c3"),
        page(vec![7], false, "never"),
    ];
    let (batches, requests) = paginate_canned(PageMode::ExplicitFlag, None, pages);
    assert_eq!(batches.len(), 3);
    assert_eq!(batches[0], Ok(vec![1, 2, 3]));
    assert_eq!(batches[1], Ok(vec![4, 5]));
    assert_eq!(batches[2], Ok(vec![6]));
    assert_eq!(requests.len(), 3);
    assert_eq!(requests[0], None);
    assert_eq!(requests[1], Some("c1".to_string()));
    assert_eq!(requests[2], Some("c2".to_string()));
}

#[test]
fn test_flag_pagination_is_replayable() {
    let make = || {
        vec![
            page(vec![1], true, "a"),
            page(vec![2], true, "b"),
            page(vec![3], false, ""),
        ]
    };
    let first = paginate_canned(PageMode::ExplicitFlag, None, make());
    let second = paginate_canned(PageMode::ExplicitFlag, None, make());
    assert_eq!(first, second);
    assert_eq!(first.0.len(), 3);
}

#[test]
fn test_cursor_pagination_three_pages() {
    // Three pages under the empty-cursor convention; the flag is absent
    // in this family and must be ignored.
    let pages = vec![
        page(vec![10], false, "c1"),
        page(vec![20], false, "c2"),
        page(vec![30], false, ""),
        page(vec![40], false, "never"),
    ];
    let (batches, requests) = paginate_canned(PageMode::EmptyCursor, None, pages);
    assert_eq!(batches.len(), 3);
    assert_eq!(batches[0], Ok(vec![10]));
    assert_eq!(batches[1], Ok(vec![20]));
    assert_eq!(batches[2], Ok(vec![30]));
    assert_eq!(requests, vec![None, Some("c1".to_string()), Some("c2".to_string())]);
}

#[test]
fn test_step_error_is_terminal() {
    let pages = vec![
        page(vec![1, 2], true, "c1"),
        Err(CbError::Http { detail: "connection reset".to_string() }),
        page(vec![3], false, ""),
    ];
    let (batches, requests) = paginate_canned(PageMode::ExplicitFlag, None, pages);
    assert_eq!(batches.len(), 2);
    assert_eq!(batches[0], Ok(vec![1, 2]));
    assert_eq!(
        batches[1],
        Err(CbError::Http { detail: "connection reset".to_string() })
    );
    assert_eq!(requests.len(), 2);
}

#[test]
fn test_paginator_resumes_from_given_cursor() {
    let mut p = Paginator::new(PageMode::ExplicitFlag, Some("resume-here".to_string()));
    assert!(!p.is_done());
    assert_eq!(p.current_cursor(), Some("resume-here".to_string()));
    p.feed(false, "ignored".to_string());
    assert!(p.is_done());
}

#[test]
fn test_empty_cursor_convention_never_clears() {
    // An endpoint that keeps returning a non-empty cursor keeps asking;
    // the caller may abandon the sequence at any point.
    let mut p = Paginator::new(PageMode::EmptyCursor, None);
    p.feed(false, "more".to_string());
    assert!(!p.is_done());
    p.feed(false, "more".to_string());
    assert!(!p.is_done());
}
