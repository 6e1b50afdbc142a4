use workengine::api::{
    cache_control, choose_asset, classify_create_error, classify_start_error, event_page,
    list_page, page_size, parse_event_cursor, parse_status, parse_work_cursor, status_counts,
    stream_start_cursor, work_is_after_cursor, ApiErrorKind, AssetAnswer, WorkCursor, CSP,
};
use workengine::control::error::AppError;
use workengine::control::ports::SequencedEvent;
use workengine::{DomainError, Work, WorkAttributes, WorkEvent, WorkId, WorkStatus};

fn work(id: &str, status: WorkStatus, profile: &str, created_at: u64) -> Work {
    Work::restore(
        WorkId::parse(id).unwrap(),
        status,
        WorkAttributes::new("goal", profile).unwrap(),
        None,
        created_at,
    )
}

#[test]
fn stream_cursor_prefers_last_event_id_and_is_exclusive() {
    assert!(matches!(stream_start_cursor(Some("2"), Some("1")), Ok(2)));
    assert!(stream_start_cursor(Some("bad"), Some("1")).is_err());
    assert!(matches!(stream_start_cursor(None, Some("1")), Ok(1)));
}

#[test]
fn work_cursor_orders_newest_first() {
    let cursor = WorkCursor {
        created_at_unix_ms: 10,
        work_id: "work-b".to_owned(),
    };
    let newer = work("work-z", WorkStatus::Ready, "stub", 11);
    let older = work("work-a", WorkStatus::Ready, "stub", 10);
    assert!(!work_is_after_cursor(&newer, &cursor));
    assert!(work_is_after_cursor(&older, &cursor));
}

#[test]
fn work_cursor_at_equal_time_compares_ids() {
    let cursor = WorkCursor {
        created_at_unix_ms: 10,
        work_id: "work-b".to_owned(),
    };
    assert!(!work_is_after_cursor(&work("work-b", WorkStatus::Ready, "stub", 10), &cursor));
    assert!(!work_is_after_cursor(&work("work-c", WorkStatus::Ready, "stub", 10), &cursor));
    assert!(work_is_after_cursor(&work("work-a", WorkStatus::Ready, "stub", 9), &cursor));
}

#[test]
fn page_size_defaults_and_bounds() {
    assert_eq!(page_size(None).unwrap(), 50);
    assert_eq!(page_size(Some(1)).unwrap(), 1);
    assert_eq!(page_size(Some(100)).unwrap(), 100);
    let zero = page_size(Some(0)).unwrap_err();
    assert_eq!(zero.kind, ApiErrorKind::BadRequest);
    assert_eq!(zero.message, "limit must be between 1 and 100");
    assert!(page_size(Some(101)).is_err());
}

#[test]
fn event_cursor_is_unsigned_decimal() {
    assert_eq!(parse_event_cursor(None).unwrap(), 0);
    assert_eq!(parse_event_cursor(Some("17")).unwrap(), 17);
    let bad = parse_event_cursor(Some("-1")).unwrap_err();
    assert_eq!(bad.kind, ApiErrorKind::BadRequest);
    assert_eq!(bad.message, "after must be an unsigned event cursor");
}

#[test]
fn status_filter_rejects_unknown_status() {
    assert_eq!(parse_status("running"), Ok(WorkStatus::Running));
    assert_eq!(
        parse_status("unknown"),
        Err(DomainError::UnknownStatus("unknown".to_owned()))
    );
}

#[test]
fn work_cursor_splits_at_first_colon() {
    let cursor = parse_work_cursor("20:work-c").unwrap();
    assert_eq!(cursor.created_at_unix_ms, 20);
    assert_eq!(cursor.work_id, "work-c");
    let odd = parse_work_cursor("5:a:b").unwrap();
    assert_eq!(odd.created_at_unix_ms, 5);
    assert_eq!(odd.work_id, "a:b");
    let bad = parse_work_cursor("not-a-cursor").unwrap_err();
    assert_eq!(bad.kind, ApiErrorKind::BadRequest);
    assert_eq!(bad.message, "cursor is invalid");
    assert!(parse_work_cursor("x:work-c").is_err());
}

#[test]
fn listing_filters_pages_and_sorts_newest_first() {
    let works = vec![
        work("work-a", WorkStatus::Ready, "writer", 10),
        work("work-c", WorkStatus::Ready, "writer", 20),
        work("work-b", WorkStatus::Running, "writer", 30),
        work("work-d", WorkStatus::Ready, "auditor", 40),
        work("work-e", WorkStatus::Ready, "writer", 20),
    ];
    let first = list_page(&works, None, Some("writer"), None, 1);
    assert_eq!(first.items.len(), 1);
    assert_eq!(first.items[0].id().as_str(), "work-b");
    assert_eq!(first.next_cursor, Some((30, "work-b".to_owned())));

    let cursor = parse_work_cursor("20:work-e").unwrap();
    let second = list_page(&works, None, Some("writer"), Some(cursor), 10);
    let ids: Vec<&str> = second.items.iter().map(|w| w.id().as_str()).collect();
    assert_eq!(ids, vec!["work-c", "work-a"]);
    assert_eq!(second.next_cursor, None);

    let ready = list_page(&works, Some(WorkStatus::Ready), None, None, 100);
    let ids: Vec<&str> = ready.items.iter().map(|w| w.id().as_str()).collect();
    assert_eq!(ids, vec!["work-d", "work-e", "work-c", "work-a"]);
}

#[test]
fn overview_counts_each_status() {
    let works = vec![
        work("work-a", WorkStatus::Ready, "writer", 10),
        work("work-b", WorkStatus::Ready, "writer", 11),
        work("work-c", WorkStatus::Parked, "writer", 12),
        work("work-d", WorkStatus::Failed, "writer", 13),
    ];
    let counts = status_counts(&works);
    assert_eq!(counts.ready, 2);
    assert_eq!(counts.running, 0);
    assert_eq!(counts.succeeded, 0);
    assert_eq!(counts.failed, 1);
    assert_eq!(counts.parked, 1);
}

#[test]
fn event_page_keeps_first_events_and_cursor() {
    let w = work("work-a", WorkStatus::Ready, "writer", 10);
    let events = || -> Vec<SequencedEvent> {
        (1..=3)
            .map(|seq| SequencedEvent {
                seq,
                event: WorkEvent::created(&w),
            })
            .collect()
    };
    let (page, next) = event_page(events(), 2);
    assert_eq!(page.len(), 2);
    assert_eq!(page[1].seq, 2);
    assert_eq!(next, Some(2));
    let (all, none) = event_page(events(), 3);
    assert_eq!(all.len(), 3);
    assert_eq!(none, None);
}

#[test]
fn refused_requests_are_classified() {
    let domain = AppError::Domain(DomainError::InvalidWorkId);
    assert_eq!(classify_create_error(&domain), ApiErrorKind::BadRequest);
    assert_eq!(classify_start_error(&domain), ApiErrorKind::Conflict);
    let missing = AppError::NotFound(WorkId::parse("work-a").unwrap());
    assert_eq!(classify_start_error(&missing), ApiErrorKind::NotFound);
    assert_eq!(classify_create_error(&missing), ApiErrorKind::Internal);
    assert_eq!(ApiErrorKind::NotFound.status_code(), 404);
    assert_eq!(ApiErrorKind::Conflict.code(), "start_conflict");
    assert_eq!(ApiErrorKind::Internal.status_code(), 500);
}

#[test]
fn embedded_ui_uses_spa_fallback_without_masking_api_404s() {
    let routes = ["/assets/app.js", "/index.html", "/assets/app.css"];
    assert_eq!(
        choose_asset("/works/work-from-a-direct-url", &routes),
        AssetAnswer::Serve(1)
    );
    assert_eq!(choose_asset("/assets/app.css", &routes), AssetAnswer::Serve(2));
    assert_eq!(
        choose_asset("/api/v0/not-a-route", &routes),
        AssetAnswer::ApiNotFound
    );
    assert_eq!(
        choose_asset("/anything", &["/assets/app.js"]),
        AssetAnswer::MissingIndex
    );
    assert_eq!(cache_control("/index.html"), "no-cache");
    assert_eq!(
        cache_control("/assets/app.js"),
        "public, max-age=31536000, immutable"
    );
    assert!(CSP.starts_with("default-src 'self'"));
}
