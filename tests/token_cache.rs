use wechat_minapp::error::Error;
use wechat_minapp::{is_stale, AccessToken, Admission, FetchedToken, RefreshCoordinator, REFRESH_MARGIN_MS};

const T0: i64 = 1_700_000_000_000;
const SECOND: i64 = 1_000;
const MINUTE: i64 = 60 * SECOND;

fn ok_token(token: &str, expires_in: i64) -> Result<FetchedToken, Error> {
    Ok(FetchedToken { access_token: token.to_string(), expires_in })
}

/// One call run to its end without any other caller in between.
fn get_token(
    cache: &mut RefreshCoordinator,
    now: i64,
    force_refresh: Option<bool>,
    fetches: &mut u32,
    fetch: impl FnOnce(Option<bool>) -> Result<FetchedToken, Error>,
) -> Result<String, Error> {
    if let Some(token) = cache.cached(now, force_refresh) {
        return Ok(token);
    }
    match cache.arbitrate(now, force_refresh) {
        Admission::Serve(token) => Ok(token),
        Admission::Fetch => {
            *fetches += 1;
            let outcome = fetch(force_refresh);
            cache.complete(now, outcome)
        }
        Admission::Wait => Ok(cache.current()),
    }
}

#[test]
fn first_call_fetches_once_then_serves_cache() {
    let mut cache = RefreshCoordinator::new(T0, REFRESH_MARGIN_MS);
    let mut fetches = 0;
    let first = get_token(&mut cache, T0, None, &mut fetches, |_| ok_token("T1", 7200));
    assert_eq!(first.unwrap(), "T1");
    assert_eq!(fetches, 1);
    let second = get_token(&mut cache, T0 + SECOND, None, &mut fetches, |_| ok_token("T9", 7200));
    assert_eq!(second.unwrap(), "T1");
    assert_eq!(fetches, 1);
}

#[test]
fn token_inside_margin_is_refreshed() {
    let mut cache = RefreshCoordinator::new(T0, REFRESH_MARGIN_MS);
    let mut fetches = 0;
    // A lifetime of four minutes is inside the five-minute margin.
    let first = get_token(&mut cache, T0, None, &mut fetches, |_| ok_token("T1", 240));
    assert_eq!(first.unwrap(), "T1");
    assert_eq!(cache.token().expired_at, T0 + 4 * MINUTE);
    let second = get_token(&mut cache, T0, None, &mut fetches, |_| ok_token("T2", 7200));
    assert_eq!(second.unwrap(), "T2");
    assert_eq!(fetches, 2);
}

#[test]
fn fifty_concurrent_callers_share_one_fetch() {
    let mut cache = RefreshCoordinator::new(T0, REFRESH_MARGIN_MS);
    let mut fetches = 0;
    let mut answers = Vec::new();
    for _ in 0..50 {
        assert!(cache.cached(T0, None).is_none());
    }
    for _ in 0..50 {
        answers.push(cache.arbitrate(T0, None));
    }
    let mut results: Vec<String> = Vec::new();
    let mut waiting = 0;
    for answer in &answers {
        match answer {
            Admission::Fetch => fetches += 1,
            Admission::Wait => waiting += 1,
            Admission::Serve(_) => panic!("a stale token was served"),
        }
    }
    assert!(matches!(answers[0], Admission::Fetch));
    assert_eq!(fetches, 1);
    assert_eq!(waiting, 49);
    // The fetch takes 100 ms.
    let winner = cache.complete(T0 + 100, ok_token("T1", 7200)).unwrap();
    results.push(winner);
    for _ in 0..waiting {
        results.push(cache.current());
    }
    assert_eq!(results.len(), 50);
    assert!(results.iter().all(|r| r == "T1"));
    assert!(!cache.is_refreshing());
}

#[test]
fn forced_call_fetches_and_absorbs_concurrent_calls() {
    let mut cache = RefreshCoordinator::new(T0, REFRESH_MARGIN_MS);
    let mut fetches = 0;
    get_token(&mut cache, T0, None, &mut fetches, |_| ok_token("T1", 7200)).unwrap();
    assert_eq!(fetches, 1);
    let now = T0 + MINUTE;
    // The forced caller skips the fast path and becomes the refresher.
    assert!(cache.cached(now, Some(true)).is_none());
    assert!(matches!(cache.arbitrate(now, Some(true)), Admission::Fetch));
    // Callers at the same instant that reach arbitration wait for it.
    assert!(matches!(cache.arbitrate(now, None), Admission::Wait));
    assert!(matches!(cache.arbitrate(now, Some(true)), Admission::Wait));
    let refreshed = cache.complete(now, ok_token("T2", 7200));
    assert_eq!(refreshed.unwrap(), "T2");
    assert_eq!(cache.current(), "T2");
}

#[test]
fn forced_refresh_on_fresh_token_still_fetches() {
    let mut cache = RefreshCoordinator::new(T0, REFRESH_MARGIN_MS);
    let mut fetches = 0;
    get_token(&mut cache, T0, None, &mut fetches, |_| ok_token("T1", 7200)).unwrap();
    let mut forced_flag = None;
    let token = get_token(&mut cache, T0 + SECOND, Some(true), &mut fetches, |f| {
        forced_flag = f;
        ok_token("T2", 7200)
    });
    assert_eq!(token.unwrap(), "T2");
    assert_eq!(fetches, 2);
    assert_eq!(forced_flag, Some(true));
    // `Some(false)` is not forced.
    let cached = get_token(&mut cache, T0 + 2 * SECOND, Some(false), &mut fetches, |_| ok_token("T3", 7200));
    assert_eq!(cached.unwrap(), "T2");
    assert_eq!(fetches, 2);
}

#[test]
fn fresh_token_never_fetches() {
    let mut cache = RefreshCoordinator::new(T0, REFRESH_MARGIN_MS);
    cache.arbitrate(T0, None);
    cache.complete(T0, ok_token("T1", 3600)).unwrap();
    // Fresh: even a caller that reaches arbitration is served, not told to fetch.
    match cache.arbitrate(T0 + MINUTE, None) {
        Admission::Serve(t) => assert_eq!(t, "T1"),
        _ => panic!("a fresh token caused a fetch"),
    }
    assert!(!cache.is_refreshing());
}

#[test]
fn token_stays_fresh_until_lifetime_less_margin() {
    let mut cache = RefreshCoordinator::new(T0, REFRESH_MARGIN_MS);
    cache.arbitrate(T0, None);
    cache.complete(T0, ok_token("T1", 7200)).unwrap();
    let last_fresh = T0 + 7200 * SECOND - REFRESH_MARGIN_MS - 1;
    assert_eq!(cache.cached(T0, None).as_deref(), Some("T1"));
    assert_eq!(cache.cached(last_fresh, None).as_deref(), Some("T1"));
    assert_eq!(cache.cached(last_fresh + 1, None), None);
}

#[test]
fn failed_refresh_keeps_token_and_frees_ownership() {
    let mut cache = RefreshCoordinator::new(T0, REFRESH_MARGIN_MS);
    cache.arbitrate(T0, None);
    cache.complete(T0, ok_token("T1", 240)).unwrap();
    assert!(matches!(cache.arbitrate(T0 + SECOND, None), Admission::Fetch));
    assert!(matches!(cache.arbitrate(T0 + SECOND, None), Admission::Wait));
    let failed = cache.complete(T0 + 2 * SECOND, Err(Error::System("busy".to_string())));
    match failed {
        Err(Error::System(m)) => assert_eq!(m, "busy"),
        other => panic!("unexpected {:?}", other),
    }
    // The waiter reads the old token, paired with its old expiry.
    assert_eq!(cache.current(), "T1");
    assert_eq!(cache.token().expired_at, T0 + 240 * SECOND);
    assert!(!cache.is_refreshing());
    // The next caller fetches again, exactly once.
    assert!(matches!(cache.arbitrate(T0 + 3 * SECOND, None), Admission::Fetch));
    assert!(matches!(cache.arbitrate(T0 + 3 * SECOND, None), Admission::Wait));
}

#[test]
fn new_cache_is_stale_and_empty() {
    let cache = RefreshCoordinator::new(T0, REFRESH_MARGIN_MS);
    assert_eq!(cache.current(), "");
    assert_eq!(cache.margin(), REFRESH_MARGIN_MS);
    assert!(!cache.is_refreshing());
    assert_eq!(cache.cached(T0, None), None);
    assert_eq!(cache.token().expired_at, T0);
}

#[test]
fn staleness_boundary() {
    let token = AccessToken { access_token: "T".to_string(), expired_at: T0, force_refresh: None };
    assert!(is_stale(&token, T0 - REFRESH_MARGIN_MS, REFRESH_MARGIN_MS));
    assert!(!is_stale(&token, T0 - REFRESH_MARGIN_MS - 1, REFRESH_MARGIN_MS));
    assert!(is_stale(&token, i64::MAX, i64::MAX));
    assert!(!is_stale(&token, i64::MIN, 0));
}

#[test]
fn new_token_and_expiry_replaced_together() {
    let mut cache = RefreshCoordinator::new(T0, REFRESH_MARGIN_MS);
    cache.arbitrate(T0, None);
    cache.complete(T0 + 5, ok_token("T1", 7200)).unwrap();
    assert_eq!(cache.token().access_token, "T1");
    assert_eq!(cache.token().expired_at, T0 + 5 + 7200 * SECOND);
}
