use contributions_proxy::cache::CacheStore;
use contributions_proxy::contributions::ContributionCalendar;
use contributions_proxy::contributions::ContributionDay;
use contributions_proxy::contributions::ContributionsCollection;
use contributions_proxy::contributions::Data;
use contributions_proxy::contributions::GithubContributionsResponse;
use contributions_proxy::contributions::User;
use contributions_proxy::contributions::Week;
use contributions_proxy::contributions::flatten_response;
use contributions_proxy::contributions::flatten_weeks;
use contributions_proxy::coordinator::CheckOutcome;
use contributions_proxy::coordinator::FetchError;
use contributions_proxy::coordinator::ServiceError;
use contributions_proxy::coordinator::apply_fetch;
use contributions_proxy::coordinator::check_cache;
use contributions_proxy::coordinator::internal_error_body;
use contributions_proxy::coordinator::resolve_identity;
use contributions_proxy::render::render_series_json;
use contributions_proxy::render::try_render_series_json;
use contributions_proxy::upstream::contributions_query;
use contributions_proxy::upstream::variables_body;
use contributions_proxy::CACHE_TTL_MS;

fn day(count: i64, date: &str) -> ContributionDay {
    ContributionDay { contribution_count: count, date: date.to_string() }
}

fn sample_series() -> Vec<ContributionDay> {
    vec![day(1, "2024-01-01"), day(0, "2024-01-02"), day(7, "2024-01-03")]
}

#[test]
fn ttl_is_twelve_hours_in_milliseconds() {
    assert_eq!(CACHE_TTL_MS, 12 * 60 * 60 * 1000);
}

#[test]
fn flatten_joins_weeks_in_order() {
    let weeks = vec![
        Week { contribution_days: vec![day(1, "2024-01-01"), day(2, "2024-01-02")] },
        Week { contribution_days: vec![day(3, "2024-01-03")] },
    ];
    let flat = flatten_weeks(&weeks);
    assert_eq!(flat, vec![day(1, "2024-01-01"), day(2, "2024-01-02"), day(3, "2024-01-03")]);
}

#[test]
fn flatten_of_no_weeks_is_empty() {
    let weeks: Vec<Week> = Vec::new();
    assert_eq!(flatten_weeks(&weeks), Vec::new());
}

#[test]
fn flatten_passes_duplicates_through() {
    let weeks = vec![
        Week { contribution_days: vec![day(5, "2024-02-02"), day(5, "2024-02-02")] },
    ];
    assert_eq!(flatten_weeks(&weeks), vec![day(5, "2024-02-02"), day(5, "2024-02-02")]);
}

#[test]
fn flatten_response_reaches_the_calendar() {
    let response = GithubContributionsResponse {
        data: Data {
            user: User {
                contributions_collection: ContributionsCollection {
                    contribution_calendar: ContributionCalendar {
                        total_contributions: 3,
                        weeks: vec![
                            Week { contribution_days: vec![day(1, "2024-03-01")] },
                            Week { contribution_days: vec![day(2, "2024-03-02")] },
                        ],
                    },
                },
            },
        },
    };
    assert_eq!(flatten_response(&response), vec![day(1, "2024-03-01"), day(2, "2024-03-02")]);
}

#[test]
fn new_store_is_empty_and_stale() {
    let store = CacheStore::new();
    assert_eq!(store.fetched_at_ms, 0);
    assert!(store.read().is_none());
    assert!(!store.is_fresh(CACHE_TTL_MS));
    assert!(!store.is_fresh(1_700_000_000_000));
}

#[test]
fn freshness_window_example() {
    // TTL = 12h = 43,200,000 ms; fetched at 1,000,000.
    let mut store = CacheStore::new();
    store.write(sample_series(), 1_000_000);
    // 1,000,000 > 43,200,999 - 43,200,000 = 999: still fresh.
    assert!(store.is_fresh(43_200_999));
    // 1,000,000 > 44,200,001 - 43,200,000 = 1,000,001 fails: stale.
    assert!(!store.is_fresh(44_200_001));
}

#[test]
fn boundary_instant_is_already_stale() {
    let mut store = CacheStore::new();
    store.write(sample_series(), 1_000_000);
    // Exactly fetched_at_ms + TTL: the strict comparison makes it stale.
    assert!(!store.is_fresh(1_000_000 + CACHE_TTL_MS));
    // One instant earlier it is still fresh.
    assert!(store.is_fresh(1_000_000 + CACHE_TTL_MS - 1));
}

#[test]
fn fresh_hit_returns_cached_series_unmodified() {
    let series = sample_series();
    let mut store = CacheStore::new();
    store.write(series.clone(), 1_000_000);
    match check_cache(&mut store, 2_000_000) {
        CheckOutcome::Hit(v) => assert_eq!(v, series),
        other => panic!("expected a hit, got {:?}", other),
    }
    // The store is untouched by the hit.
    assert_eq!(store.fetched_at_ms, 1_000_000);
    assert_eq!(store.read(), Some(series));
}

#[test]
fn empty_store_then_successful_fetch() {
    let now: i64 = 1_700_000_000_000;
    let series = sample_series();
    let mut store = CacheStore::new();
    assert_eq!(check_cache(&mut store, now), CheckOutcome::NeedsRefresh);
    let response = apply_fetch(&mut store, now, Ok(series.clone()));
    assert_eq!(response, Ok(series.clone()));
    assert!(store.is_fresh(now));
    assert_eq!(check_cache(&mut store, now + 5), CheckOutcome::Hit(series));
}

#[test]
fn empty_store_then_failed_fetch_stays_empty() {
    let now: i64 = 1_700_000_000_000;
    let mut store = CacheStore::new();
    let response = apply_fetch(&mut store, now, Err(FetchError::Transport));
    assert_eq!(response, Err(ServiceError::Transport));
    assert!(store.read().is_none());
    assert!(!store.is_fresh(now));
    // The next request refetches instead of hitting.
    assert_eq!(check_cache(&mut store, now), CheckOutcome::NeedsRefresh);
}

#[test]
fn failed_fetch_leaves_stale_value_for_retry() {
    let now: i64 = 1_700_000_000_000;
    let series = sample_series();
    let mut store = CacheStore::new();
    store.write(series.clone(), 5);
    let response = apply_fetch(&mut store, now, Err(FetchError::Decode));
    assert_eq!(response, Err(ServiceError::Decode));
    // Old value and old timestamp remain, even though stale.
    assert_eq!(store.fetched_at_ms, 5);
    assert_eq!(store.read(), Some(series));
}

#[test]
fn fresh_flag_without_value_is_the_inconsistency() {
    let now: i64 = 1_700_000_000_000;
    let mut store = CacheStore { value: None, fetched_at_ms: now };
    assert_eq!(check_cache(&mut store, now), CheckOutcome::Inconsistent);
    // The store self-heals: timestamp zeroed, so the next check refetches.
    assert_eq!(store.fetched_at_ms, 0);
    assert!(!store.is_fresh(now));
    assert_eq!(check_cache(&mut store, now), CheckOutcome::NeedsRefresh);
}

#[test]
fn repeated_reads_return_identical_series() {
    let series = sample_series();
    let mut store = CacheStore::new();
    store.write(series, 1_000_000);
    let first = check_cache(&mut store, 2_000_000);
    let second = check_cache(&mut store, 3_000_000);
    assert!(matches!(first, CheckOutcome::Hit(_)));
    assert_eq!(first, second);
}

#[test]
fn both_fetch_errors_map_to_their_service_errors() {
    let now: i64 = 1_700_000_000_000;
    let mut store = CacheStore::new();
    assert_eq!(apply_fetch(&mut store, now, Err(FetchError::Transport)), Err(ServiceError::Transport));
    assert_eq!(apply_fetch(&mut store, now, Err(FetchError::Decode)), Err(ServiceError::Decode));
}

#[test]
fn every_service_error_is_answered_opaquely() {
    assert_eq!(internal_error_body(&ServiceError::Transport), "internal");
    assert_eq!(internal_error_body(&ServiceError::Decode), "internal");
    assert_eq!(internal_error_body(&ServiceError::CacheInconsistency), "internal");
}

#[test]
fn configured_identity_always_wins() {
    let configured = Some("operator".to_string());
    assert_eq!(resolve_identity(&configured, "visitor".to_string()), "operator");
}

#[test]
fn requested_identity_used_without_override() {
    assert_eq!(resolve_identity(&None, "visitor".to_string()), "visitor");
}

#[test]
fn variables_body_binds_the_identity() {
    assert_eq!(variables_body("octocat"), "{\"userName\": \"octocat\"}");
}

#[test]
fn renders_the_exact_json_array() {
    let series = vec![day(0, "2024-01-01"), day(12, "2024-01-02"), day(305, "2024-01-03")];
    assert_eq!(
        render_series_json(&series),
        "[{\"contributionCount\":0,\"date\":\"2024-01-01\"},\
         {\"contributionCount\":12,\"date\":\"2024-01-02\"},\
         {\"contributionCount\":305,\"date\":\"2024-01-03\"}]"
    );
}

#[test]
fn renders_an_empty_series_as_an_empty_array() {
    let series: Vec<ContributionDay> = Vec::new();
    assert_eq!(render_series_json(&series), "[]");
}

#[test]
fn rendering_escapes_json_string_values() {
    let series = vec![day(1, "a\"b\\c\nd")];
    assert_eq!(
        render_series_json(&series),
        "[{\"contributionCount\":1,\"date\":\"a\\\"b\\\\c\\u000ad\"}]"
    );
}

#[test]
fn rendered_body_is_valid_json_for_a_parser() {
    let series = vec![day(42, "2024-05-06"), day(3, "quote \" and tab \t")];
    let body = render_series_json(&series);
    let parsed: serde_json::Value = serde_json::from_str(&body).expect("body parses as JSON");
    assert_eq!(parsed[0]["contributionCount"], serde_json::Value::from(42));
    assert_eq!(parsed[0]["date"], serde_json::Value::from("2024-05-06"));
    assert_eq!(parsed[1]["date"], serde_json::Value::from("quote \" and tab \t"));
}

#[test]
fn repeated_hits_render_byte_identical_bodies() {
    let series = sample_series();
    let mut store = CacheStore::new();
    store.write(series, 1_000_000);
    let first = match check_cache(&mut store, 2_000_000) {
        CheckOutcome::Hit(v) => render_series_json(&v),
        other => panic!("expected a hit, got {:?}", other),
    };
    let second = match check_cache(&mut store, 3_000_000) {
        CheckOutcome::Hit(v) => render_series_json(&v),
        other => panic!("expected a hit, got {:?}", other),
    };
    assert_eq!(first.into_bytes(), second.into_bytes());
}

#[test]
fn negative_count_is_refused_not_served() {
    let good = sample_series();
    assert_eq!(try_render_series_json(&good), Some(render_series_json(&good)));
    let bad = vec![day(-1, "2024-01-01")];
    assert_eq!(try_render_series_json(&bad), None);
}

#[test]
fn query_asks_for_the_per_day_calendar() {
    let query = contributions_query();
    assert_eq!(
        query,
        "query($userName:String!) { user(login: $userName) { contributionsCollection { contributionCalendar { totalContributions weeks { contributionDays { contributionCount date } } } } } }"
    );
}
