//! Decisions of the local HTTP API: query validation, cursors, paging,
//! ordering of listed Work, counts, and how errors are answered.
use vstd::prelude::*;
use vstd::string::StrSliceExecFns;

use crate::control::error::AppError;
use crate::control::ports::SequencedEvent;
use crate::control::usecases::work_views;
use crate::domain::error::DomainError;
use crate::domain::status::{status_named, WorkStatus};
use crate::domain::work::{Work, WorkView};
use crate::order::{
    lemma_seq_order_antisymmetric, lemma_seq_order_transitive, parse_u64, seq_order, str_order,
    u64_from_text,
};
use crate::text::{chars_of, owned, starts_with_str, str_eq};

verus! {

broadcast use vstd::seq_lib::group_to_multiset_ensures;

/// Page size when a request names none.
pub const DEFAULT_PAGE_SIZE: usize = 50;

/// Largest page a request may ask for.
pub const MAX_PAGE_SIZE: usize = 100;

/// How the API answers a refused request.
#[derive(Clone, Copy, Debug, PartialEq, Eq, Structural)]
pub enum ApiErrorKind {
    /// 400, `invalid_request`.
    BadRequest,
    /// 404, `not_found`.
    NotFound,
    /// 409, `start_conflict`.
    Conflict,
    /// 500, `store_unavailable`.
    Internal,
}

impl ApiErrorKind {
    /// The HTTP status code of the answer.
    pub fn status_code(self) -> (r: u16)
        ensures
            self == ApiErrorKind::BadRequest ==> r == 400,
            self == ApiErrorKind::NotFound ==> r == 404,
            self == ApiErrorKind::Conflict ==> r == 409,
            self == ApiErrorKind::Internal ==> r == 500,
    {
        match self {
            ApiErrorKind::BadRequest => 400,
            ApiErrorKind::NotFound => 404,
            ApiErrorKind::Conflict => 409,
            ApiErrorKind::Internal => 500,
        }
    }

    /// The machine-readable code of the answer.
    pub fn code(self) -> (r: &'static str)
        ensures
            self == ApiErrorKind::BadRequest ==> r@ == "invalid_request"@,
            self == ApiErrorKind::NotFound ==> r@ == "not_found"@,
            self == ApiErrorKind::Conflict ==> r@ == "start_conflict"@,
            self == ApiErrorKind::Internal ==> r@ == "store_unavailable"@,
    {
        match self {
            ApiErrorKind::BadRequest => "invalid_request",
            ApiErrorKind::NotFound => "not_found",
            ApiErrorKind::Conflict => "start_conflict",
            ApiErrorKind::Internal => "store_unavailable",
        }
    }
}

/// A refused request: how it is answered and why.
#[derive(Debug)]
pub struct ApiRejection {
    pub kind: ApiErrorKind,
    pub message: String,
}

fn bad_request(message: &str) -> (r: ApiRejection)
    ensures
        r.kind == ApiErrorKind::BadRequest,
        r.message@ == message@,
{
    ApiRejection { kind: ApiErrorKind::BadRequest, message: owned(message) }
}

/// The page size a request asks for: the default when absent, and between
/// 1 and 100.
pub fn page_size(value: Option<usize>) -> (r: Result<usize, ApiRejection>)
    ensures
        ({
            let n = match value {
                Some(n) => n,
                None => DEFAULT_PAGE_SIZE,
            };
            if 1 <= n <= MAX_PAGE_SIZE {
                r == Ok::<usize, ApiRejection>(n)
            } else {
                r matches Err(e) && e.kind == ApiErrorKind::BadRequest && e.message@
                    == "limit must be between 1 and 100"@
            }
        }),
{
    let n = match value {
        Some(n) => n,
        None => DEFAULT_PAGE_SIZE,
    };
    if 1 <= n && n <= MAX_PAGE_SIZE {
        Ok(n)
    } else {
        Err(bad_request("limit must be between 1 and 100"))
    }
}

/// The event cursor a request resumes after: 0 when absent, else an
/// unsigned decimal.
pub fn parse_event_cursor(value: Option<&str>) -> (r: Result<u64, ApiRejection>)
    ensures
        match value {
            None => r == Ok::<u64, ApiRejection>(0),
            Some(s) => match u64_from_text(s@) {
                Some(n) => r == Ok::<u64, ApiRejection>(n),
                None => r matches Err(e) && e.kind == ApiErrorKind::BadRequest && e.message@
                    == "after must be an unsigned event cursor"@,
            },
        },
{
    match value {
        None => Ok(0),
        Some(s) => match parse_u64(s) {
            Some(n) => Ok(n),
            None => Err(bad_request("after must be an unsigned event cursor")),
        },
    }
}

/// Where an event stream starts: the `Last-Event-ID` header wins over the
/// `after` parameter; the stream is exclusive of that cursor.
pub fn stream_start_cursor(last_event_id: Option<&str>, after: Option<&str>) -> (r: Result<
    u64,
    ApiRejection,
>)
    ensures
        match last_event_id {
            Some(h) => match u64_from_text(h@) {
                Some(n) => r == Ok::<u64, ApiRejection>(n),
                None => r is Err,
            },
            None => match after {
                None => r == Ok::<u64, ApiRejection>(0),
                Some(a) => match u64_from_text(a@) {
                    Some(n) => r == Ok::<u64, ApiRejection>(n),
                    None => r is Err,
                },
            },
        },
{
    match last_event_id {
        Some(h) => parse_event_cursor(Some(h)),
        None => parse_event_cursor(after),
    }
}

/// Reads a status filter. An unknown status is a bad request.
pub fn parse_status(value: &str) -> (r: Result<WorkStatus, DomainError>)
    ensures
        match status_named(value@) {
            Some(s) => r == Ok::<WorkStatus, DomainError>(s),
            None => r matches Err(DomainError::UnknownStatus(t)) && t@ == value@,
        },
{
    WorkStatus::parse(value)
}

/// A position in the newest-first list of Work: the birth time and id of
/// the last Work of the previous page.
#[derive(Clone, Debug, PartialEq, Eq)]
pub struct WorkCursor {
    pub created_at_unix_ms: u64,
    pub work_id: String,
}

/// Reads a Work cursor: `<created_at>:<work id>`, split at the first `:`.
pub fn parse_work_cursor(value: &str) -> (r: Result<WorkCursor, ApiRejection>)
    ensures
        match r {
            Ok(c) => exists|i: int|
                0 <= i < value@.len() && value@[i] == ':' && (forall|j: int| 0 <= j < i ==> value@[j] != ':')
                    && u64_from_text(value@.subrange(0, i)) == Some(c.created_at_unix_ms)
                    && c.work_id@ == value@.subrange(i + 1, value@.len() as int),
            Err(e) => e.kind == ApiErrorKind::BadRequest && e.message@ == "cursor is invalid"@ && (
            forall|i: int|
                0 <= i < value@.len() && value@[i] == ':' && (forall|j: int| 0 <= j < i ==> value@[j] != ':')
                    ==> u64_from_text(value@.subrange(0, i)) is None),
        },
{
    let v = chars_of(value);
    let mut i: usize = 0;
    while i < v.len() && v[i] != ':'
        invariant
            v@ == value@,
            i <= v.len(),
            forall|j: int| 0 <= j < i ==> value@[j] != ':',
        decreases v.len() - i,
    {
        i = i + 1;
    }
    if i == v.len() {
        return Err(bad_request("cursor is invalid"));
    }
    let head = value.substring_char(0, i);
    let tail = value.substring_char(i + 1, v.len());
    match parse_u64(head) {
        Some(created) => Ok(WorkCursor { created_at_unix_ms: created, work_id: owned(tail) }),
        None => {
            proof {
                assert forall|k: int|
                    0 <= k < value@.len() && value@[k] == ':' && (forall|j: int| 0 <= j < k ==> value@[j] != ':')
                    implies u64_from_text(value@.subrange(0, k)) is None by {
                    if k < i {
                    } else if k > i {
                        assert(value@[i as int] == ':');
                    }
                }
            }
            Err(bad_request("cursor is invalid"))
        },
    }
}

/// Order of Work in a listing, newest first: a positive value when `a`
/// comes before `b`. Birth time decides; equal birth times fall back to
/// the id, greater ids first.
pub open spec fn key_order(a: WorkView, b: WorkView) -> int {
    if a.created_at_unix_ms > b.created_at_unix_ms {
        1
    } else if a.created_at_unix_ms < b.created_at_unix_ms {
        -1
    } else {
        seq_order(a.id, b.id)
    }
}

/// The listing order of two Works.
pub fn work_key_order(a: &Work, b: &Work) -> (r: i8)
    ensures
        r as int == key_order(a@, b@),
{
    if a.created_at_unix_ms() > b.created_at_unix_ms() {
        1
    } else if a.created_at_unix_ms() < b.created_at_unix_ms() {
        -1
    } else {
        str_order(a.id().as_str(), b.id().as_str())
    }
}

proof fn lemma_key_order_antisymmetric(a: WorkView, b: WorkView)
    ensures
        key_order(a, b) == -key_order(b, a),
{
    lemma_seq_order_antisymmetric(a.id, b.id);
}

proof fn lemma_key_order_transitive(a: WorkView, b: WorkView, c: WorkView)
    requires
        key_order(a, b) >= 0,
        key_order(b, c) >= 0,
    ensures
        key_order(a, c) >= 0,
        key_order(a, b) > 0 || key_order(b, c) > 0 ==> key_order(a, c) > 0,
{
    if a.created_at_unix_ms == b.created_at_unix_ms && b.created_at_unix_ms == c.created_at_unix_ms {
        lemma_seq_order_transitive(a.id, b.id, c.id);
    }
}

/// A Work comes strictly after a cursor in the newest-first listing.
pub open spec fn after_cursor(w: WorkView, created: u64, id: Seq<char>) -> bool {
    w.created_at_unix_ms < created || (w.created_at_unix_ms == created && seq_order(w.id, id) < 0)
}

/// Whether a Work lies after a cursor in the newest-first listing.
pub fn work_is_after_cursor(work: &Work, cursor: &WorkCursor) -> (r: bool)
    ensures
        r == after_cursor(work@, cursor.created_at_unix_ms, cursor.work_id@),
{
    work.created_at_unix_ms() < cursor.created_at_unix_ms || (work.created_at_unix_ms()
        == cursor.created_at_unix_ms && str_order(work.id().as_str(), cursor.work_id.as_str())
        < 0)
}

/// The Works a listing request selects: with the status and profile asked
/// for, after the cursor.
pub open spec fn selected_by(
    w: WorkView,
    status: Option<WorkStatus>,
    profile: Option<Seq<char>>,
    cursor: Option<(u64, Seq<char>)>,
) -> bool {
    &&& (match status {
        Some(s) => w.status == s,
        None => true,
    })
    &&& (match profile {
        Some(p) => w.attributes.worker_profile == p,
        None => true,
    })
    &&& (match cursor {
        Some((c, id)) => after_cursor(w, c, id),
        None => true,
    })
}

/// A listing is sorted newest first.
pub open spec fn sorted_newest_first(s: Seq<WorkView>) -> bool {
    forall|i: int, j: int| 0 <= i < j < s.len() ==> key_order(#[trigger] s[i], #[trigger] s[j]) >= 0
}

/// One page of the Work listing, and the cursor of the next page when more
/// Works follow.
pub struct WorkPage {
    pub items: Vec<Work>,
    pub next_cursor: Option<(u64, String)>,
}

/// The view of an optional cursor.
pub open spec fn cursor_spec(c: Option<WorkCursor>) -> Option<(u64, Seq<char>)> {
    match c {
        Some(c) => Some((c.created_at_unix_ms, c.work_id@)),
        None => None,
    }
}

/// The view of an optional profile filter.
pub open spec fn profile_spec(p: Option<&str>) -> Option<Seq<char>> {
    match p {
        Some(p) => Some(p@),
        None => None,
    }
}

fn selects(
    work: &Work,
    status: Option<WorkStatus>,
    profile: Option<&str>,
    cursor: &Option<WorkCursor>,
) -> (r: bool)
    ensures
        r == selected_by(work@, status, profile_spec(profile), cursor_spec(*cursor)),
{
    let status_ok = match status {
        Some(s) => work.status() == s,
        None => true,
    };
    let profile_ok = match profile {
        Some(p) => str_eq(work.attributes().worker_profile(), p),
        None => true,
    };
    let cursor_ok = match cursor {
        Some(c) => work_is_after_cursor(work, c),
        None => true,
    };
    status_ok && profile_ok && cursor_ok
}

/// Inserts `w` into a newest-first listing, after every Work that sorts at
/// least as new.
fn insert_sorted(out: &mut Vec<Work>, w: Work)
    requires
        sorted_newest_first(work_views(old(out)@)),
    ensures
        sorted_newest_first(work_views(final(out)@)),
        work_views(final(out)@).to_multiset() == work_views(old(out)@).to_multiset().insert(w@),
{
    let ghost before = work_views(out@);
    let mut p: usize = 0;
    while p < out.len() && work_key_order(&w, &out[p]) <= 0
        invariant
            before == work_views(out@),
            p <= out.len(),
            forall|k: int| 0 <= k < p ==> key_order(w@, #[trigger] before[k]) <= 0,
        decreases out.len() - p,
    {
        assert(before[p as int] == out@[p as int]@);
        p = p + 1;
    }
    proof {
        if p < out.len() {
            assert(before[p as int] == out@[p as int]@);
            assert(key_order(w@, before[p as int]) > 0);
        }
    }
    out.insert(p, w);
    proof {
        let after = work_views(out@);
        assert(after =~= before.insert(p as int, w@));
        assert forall|i: int, j: int| 0 <= i < j < after.len() implies key_order(
            #[trigger] after[i],
            #[trigger] after[j],
        ) >= 0 by {
            if j < p {
                assert(after[i] == before[i] && after[j] == before[j]);
            } else if j == p {
                assert(after[i] == before[i] && after[j] == w@);
                assert(key_order(w@, before[i]) <= 0);
                lemma_key_order_antisymmetric(w@, before[i]);
            } else if i == p {
                assert(after[j] == before[j - 1]);
                assert(key_order(w@, before[p as int]) > 0);
                if j - 1 > p {
                    assert(key_order(before[p as int], before[j - 1]) >= 0);
                    lemma_key_order_transitive(w@, before[p as int], before[j - 1]);
                }
            } else if i < p {
                assert(after[i] == before[i] && after[j] == before[j - 1]);
            } else {
                assert(after[i] == before[i - 1] && after[j] == before[j - 1]);
            }
        }
        vstd::seq_lib::to_multiset_insert(before, p as int, w@);
    }
}

/// The selected Works of a listing, newest first, with the page size
/// applied; and the cursor of the next page when more Works follow.
///
/// The page holds `min(limit, n)` of the `n` selected Works, sorted newest
/// first; it holds only selected Works; and every selected Work that it
/// leaves out comes after its last item. The cursor names the last item
/// exactly when more than `limit` Works are selected.
pub fn list_page(
    works: &[Work],
    status: Option<WorkStatus>,
    profile: Option<&str>,
    cursor: Option<WorkCursor>,
    limit: usize,
) -> (r: WorkPage)
    requires
        limit >= 1,
    ensures
        ({
            let sel = work_views(works@).filter(
                |w: WorkView| selected_by(w, status, profile_spec(profile), cursor_spec(cursor)),
            );
            let items = work_views(r.items@);
            &&& sorted_newest_first(items)
            &&& items.len() == if sel.len() < limit {
                sel.len()
            } else {
                limit as nat
            }
            &&& items.to_multiset().subset_of(sel.to_multiset())
            &&& forall|c: WorkView|
                #![trigger sel.to_multiset().count(c)]
                sel.to_multiset().count(c) > items.to_multiset().count(c) ==> key_order(
                    items.last(),
                    c,
                ) >= 0
            &&& match r.next_cursor {
                Some((created, id)) => sel.len() > limit && created == items.last().created_at_unix_ms
                    && id@ == items.last().id,
                None => sel.len() <= limit,
            }
        }),
{
    let ghost ws = work_views(works@);
    let ghost pred = |w: WorkView| selected_by(w, status, profile_spec(profile), cursor_spec(cursor));
    let mut out: Vec<Work> = Vec::new();
    let mut i: usize = 0;
    while i < works.len()
        invariant
            ws == work_views(works@),
            i <= works.len(),
            pred == (|w: WorkView| selected_by(w, status, profile_spec(profile), cursor_spec(cursor))),
            sorted_newest_first(work_views(out@)),
            work_views(out@).to_multiset() == ws.take(i as int).filter(pred).to_multiset(),
        decreases works.len() - i,
    {
        assert(ws.take(i + 1).drop_last() =~= ws.take(i as int));
        assert(ws.take(i + 1).last() == works@[i as int]@);
        reveal_with_fuel(Seq::filter, 1);
        if selects(&works[i], status, profile, &cursor) {
            insert_sorted(&mut out, works[i].clone());
            assert(ws.take(i + 1).filter(pred) =~= ws.take(i as int).filter(pred).push(
                works@[i as int]@,
            ));
        } else {
            assert(ws.take(i + 1).filter(pred) =~= ws.take(i as int).filter(pred));
        }
        i = i + 1;
    }
    assert(ws.take(works.len() as int) =~= ws);
    let ghost full = work_views(out@);
    let ghost sel = ws.filter(pred);
    proof {
        vstd::seq_lib::to_multiset_len(full);
        vstd::seq_lib::to_multiset_len(sel);
    }
    let has_more = out.len() > limit;
    let mut items = out;
    items.truncate(limit);
    let ghost page = work_views(items@);
    proof {
        let m = page.len() as int;
        assert(page =~= full.take(m));
        let rest = full.skip(m);
        assert(full =~= page + rest);
        vstd::seq_lib::lemma_multiset_commutative(page, rest);
        assert forall|c: WorkView|
            #![trigger sel.to_multiset().count(c)]
            sel.to_multiset().count(c) > page.to_multiset().count(c) implies key_order(
            page.last(),
            c,
        ) >= 0 by {
            assert(rest.to_multiset().count(c) > 0);
            vstd::seq_lib::to_multiset_contains(rest, c);
            let q = choose|q: int| 0 <= q < rest.len() && rest[q] == c;
            assert(full[m + q] == c);
            assert(full[m - 1] == page.last());
            assert(key_order(full[m - 1], full[m + q]) >= 0);
        }
    }
    let next_cursor = if has_more {
        let last = &items[items.len() - 1];
        assert(page.last() == last@);
        Some((last.created_at_unix_ms(), owned(last.id().as_str())))
    } else {
        None
    };
    WorkPage { items, next_cursor }
}

/// How many Works have each status.
#[derive(Clone, Copy, Debug, PartialEq, Eq)]
pub struct StatusCounts {
    pub ready: usize,
    pub running: usize,
    pub succeeded: usize,
    pub failed: usize,
    pub parked: usize,
}

/// The number of Works in `ws` with status `st`.
pub open spec fn count_status(ws: Seq<WorkView>, st: WorkStatus) -> nat {
    ws.filter(|w: WorkView| w.status == st).len()
}

/// The overview: how many Works have each status.
pub fn status_counts(works: &[Work]) -> (r: StatusCounts)
    ensures
        r.ready == count_status(work_views(works@), WorkStatus::Ready),
        r.running == count_status(work_views(works@), WorkStatus::Running),
        r.succeeded == count_status(work_views(works@), WorkStatus::Succeeded),
        r.failed == count_status(work_views(works@), WorkStatus::Failed),
        r.parked == count_status(work_views(works@), WorkStatus::Parked),
        r.ready + r.running + r.succeeded + r.failed + r.parked == works@.len(),
{
    let ghost ws = work_views(works@);
    let mut c = StatusCounts { ready: 0, running: 0, succeeded: 0, failed: 0, parked: 0 };
    let mut i: usize = 0;
    while i < works.len()
        invariant
            ws == work_views(works@),
            i <= works.len(),
            c.ready == count_status(ws.take(i as int), WorkStatus::Ready),
            c.running == count_status(ws.take(i as int), WorkStatus::Running),
            c.succeeded == count_status(ws.take(i as int), WorkStatus::Succeeded),
            c.failed == count_status(ws.take(i as int), WorkStatus::Failed),
            c.parked == count_status(ws.take(i as int), WorkStatus::Parked),
            c.ready + c.running + c.succeeded + c.failed + c.parked == i,
        decreases works.len() - i,
    {
        assert(ws.take(i + 1).drop_last() =~= ws.take(i as int));
        assert(ws.take(i + 1).last() == works@[i as int]@);
        reveal_with_fuel(Seq::filter, 1);
        match works[i].status() {
            WorkStatus::Ready => {
                c.ready = c.ready + 1;
            },
            WorkStatus::Running => {
                c.running = c.running + 1;
            },
            WorkStatus::Succeeded => {
                c.succeeded = c.succeeded + 1;
            },
            WorkStatus::Failed => {
                c.failed = c.failed + 1;
            },
            WorkStatus::Parked => {
                c.parked = c.parked + 1;
            },
        }
        i = i + 1;
    }
    assert(ws.take(works.len() as int) =~= ws);
    c
}

/// One page of events after a cursor, and the cursor of the next page when
/// more events follow: the page keeps the first `limit` events in order.
pub fn event_page(events: Vec<SequencedEvent>, limit: usize) -> (r: (Vec<SequencedEvent>, Option<u64>))
    requires
        limit >= 1,
    ensures
        events@.len() <= limit ==> r.0@ == events@ && r.1 is None,
        events@.len() > limit ==> r.0@ == events@.take(limit as int) && r.1 == Some(
            events@[limit - 1].seq,
        ),
{
    let has_more = events.len() > limit;
    let mut page = events;
    page.truncate(limit);
    if has_more {
        let seq = page[page.len() - 1].seq;
        (page, Some(seq))
    } else {
        (page, None)
    }
}

/// How a failed `create` is answered: a domain error is the caller's
/// mistake; anything else is the store's.
pub fn classify_create_error(error: &AppError) -> (r: ApiErrorKind)
    ensures
        error is Domain ==> r == ApiErrorKind::BadRequest,
        !(error is Domain) ==> r == ApiErrorKind::Internal,
{
    match error {
        AppError::Domain(_) => ApiErrorKind::BadRequest,
        _ => ApiErrorKind::Internal,
    }
}

/// How a failed `start` is answered: a missing Work is not found; a
/// conflict, a domain error or a broken outcome is a start conflict;
/// anything else is the store's.
pub fn classify_start_error(error: &AppError) -> (r: ApiErrorKind)
    ensures
        error is NotFound ==> r == ApiErrorKind::NotFound,
        error is Conflict || error is Domain || error is OutcomeSchema ==> r == ApiErrorKind::Conflict,
        !(error is NotFound || error is Conflict || error is Domain || error is OutcomeSchema) ==> r
            == ApiErrorKind::Internal,
{
    match error {
        AppError::NotFound(_) => ApiErrorKind::NotFound,
        AppError::Conflict(_) | AppError::Domain(_) | AppError::OutcomeSchema(_) => ApiErrorKind::Conflict,
        _ => ApiErrorKind::Internal,
    }
}

/// The content security policy sent with every page of the embedded UI.
pub const CSP: &'static str = "default-src 'self'; base-uri 'none'; object-src 'none'; frame-ancestors 'none'; connect-src 'self'; style-src 'self'; script-src 'self'";

/// The route of the UI's entry page, served for every path that names no
/// asset.
pub open spec fn index_route() -> Seq<char> {
    "/index.html"@
}

/// The first position in `routes` that holds `path`.
pub open spec fn first_route(routes: Seq<&str>, path: Seq<char>) -> Option<int> {
    if exists|i: int| 0 <= i < routes.len() && routes[i]@ == path {
        Some(choose|i: int| 0 <= i < routes.len() && routes[i]@ == path && (forall|j: int| 0 <= j < i ==> routes[j]@ != path))
    } else {
        None
    }
}

/// How a request outside the API routes is answered.
#[derive(Clone, Copy, Debug, PartialEq, Eq, Structural)]
pub enum AssetAnswer {
    /// A path under `/api/` that no route took: the API's 404.
    ApiNotFound,
    /// The embedded asset at this position.
    Serve(usize),
    /// No asset matched and the entry page is missing.
    MissingIndex,
}

fn find_route(routes: &[&str], path: &str) -> (r: Option<usize>)
    ensures
        match r {
            Some(i) => i < routes@.len() && routes@[i as int]@ == path@ && (forall|j: int| 0 <= j < i ==> routes@[j]@ != path@),
            None => forall|j: int| 0 <= j < routes@.len() ==> routes@[j]@ != path@,
        },
{
    let mut i: usize = 0;
    while i < routes.len()
        invariant
            i <= routes@.len(),
            forall|j: int| 0 <= j < i ==> routes@[j]@ != path@,
        decreases routes.len() - i,
    {
        if str_eq(routes[i], path) {
            return Some(i);
        }
        i = i + 1;
    }
    None
}

proof fn lemma_first_route(routes: Seq<&str>, path: Seq<char>, i: int)
    requires
        0 <= i < routes.len(),
        routes[i]@ == path,
        forall|j: int| 0 <= j < i ==> routes[j]@ != path,
    ensures
        first_route(routes, path) == Some(i),
{
    let k = choose|k: int| 0 <= k < routes.len() && routes[k]@ == path && (forall|j: int| 0 <= j < k ==> routes[j]@ != path);
    assert(routes[i]@ == path);
    if k < i {
        assert(routes[k]@ != path);
    } else if k > i {
        assert(routes[i]@ != path);
    }
}

/// Which embedded asset answers a request for `path`: a path under
/// `/api/` is the API's 404; else the asset whose route is the path; else
/// the entry page, so that the UI's own routes load it.
pub fn choose_asset(path: &str, routes: &[&str]) -> (r: AssetAnswer)
    ensures
        path@.len() >= 5 && path@.subrange(0, 5) == "/api/"@ ==> r == AssetAnswer::ApiNotFound,
        !(path@.len() >= 5 && path@.subrange(0, 5) == "/api/"@) ==> r == match first_route(routes@, path@) {
            Some(i) => AssetAnswer::Serve(i as usize),
            None => match first_route(routes@, index_route()) {
                Some(j) => AssetAnswer::Serve(j as usize),
                None => AssetAnswer::MissingIndex,
            },
        },
{
    let api = "/api/";
    proof {
        reveal_strlit("/api/");
    }
    if starts_with_str(path, api) {
        return AssetAnswer::ApiNotFound;
    }
    match find_route(routes, path) {
        Some(i) => {
            proof {
                lemma_first_route(routes@, path@, i as int);
            }
            AssetAnswer::Serve(i)
        },
        None => {
            let index = "/index.html";
            match find_route(routes, index) {
                Some(j) => {
                    proof {
                        lemma_first_route(routes@, index@, j as int);
                    }
                    AssetAnswer::Serve(j)
                },
                None => AssetAnswer::MissingIndex,
            }
        },
    }
}

/// The `Cache-Control` of an embedded asset: the entry page is revalidated
/// on every load; every other asset is immutable for a year.
pub fn cache_control(route: &str) -> (r: &'static str)
    ensures
        route@ == index_route() ==> r@ == "no-cache"@,
        route@ != index_route() ==> r@ == "public, max-age=31536000, immutable"@,
{
    if str_eq(route, "/index.html") {
        "no-cache"
    } else {
        "public, max-age=31536000, immutable"
    }
}

} // verus!
