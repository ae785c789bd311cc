use ratings::cache::{ChartCache, Lookup, StoreError, TTL_SECONDS};
use ratings::domain::{Chart, RatingsBand, Timeframe, VoteSummary};

fn one_summary() -> Vec<VoteSummary> {
    vec![VoteSummary {
        snap_id: "a".to_owned(),
        raw_rating: (9.1f64).to_bits(),
        total_votes: 500,
        ratings_band: RatingsBand::VeryGood,
    }]
}

// A stub store: counts how often it is asked, so a test can observe how many
// fetches a request pattern causes.
fn fetch_counting(counter: &mut u32) -> Result<Vec<VoteSummary>, StoreError> {
    *counter += 1;
    Ok(one_summary())
}

#[test]
fn miss_on_an_empty_cache_must_compute() {
    let mut cache = ChartCache::new(TTL_SECONDS);
    assert!(matches!(cache.begin(7, 1_000), Lookup::MustCompute));
}

#[test]
fn two_requests_in_one_window_cause_one_fetch() {
    let mut cache = ChartCache::new(TTL_SECONDS);
    let mut fetches: u32 = 0;

    // First request: told to compute, so it fetches once.
    let first = cache.begin(7, 1_000);
    assert!(matches!(first, Lookup::MustCompute));
    let fetched = fetch_counting(&mut fetches);

    // Second request arrives while the first is still computing: it must
    // wait, it never fetches.
    let second = cache.begin(7, 1_001);
    assert!(matches!(second, Lookup::MustWait));

    let outcome = cache.settle_fetch(7, Timeframe::Weekly, fetched, 1_002);
    assert!(outcome.is_ok());

    // The waiter now reads the computer's result; still one fetch in total.
    let waited = cache.read_settled(7).expect("settled by the computer");
    assert_eq!(waited.unwrap().data.len(), 1);
    assert_eq!(fetches, 1);

    // A third request within the window is a hit; still one fetch.
    match cache.begin(7, 2_000) {
        Lookup::Hit(Ok(chart)) => assert_eq!(chart.data.len(), 1),
        _ => panic!("expected a hit with the cached chart"),
    }
    assert_eq!(fetches, 1);
}

#[test]
fn entry_expires_exactly_one_ttl_after_it_settled() {
    let mut cache = ChartCache::new(TTL_SECONDS);
    let mut fetches: u32 = 0;

    assert!(matches!(cache.begin(3, 1_000), Lookup::MustCompute));
    let fetched = fetch_counting(&mut fetches);
    cache.settle_fetch(3, Timeframe::Daily, fetched, 1_000);

    // One second before expiry: still a hit.
    assert!(matches!(cache.begin(3, 1_000 + TTL_SECONDS - 1), Lookup::Hit(_)));
    assert_eq!(fetches, 1);

    // At expiry the entry is treated as absent: a fresh fetch is triggered
    // even though the prior result was cached successfully.
    assert!(matches!(cache.begin(3, 1_000 + TTL_SECONDS), Lookup::MustCompute));
    let fetched = fetch_counting(&mut fetches);
    cache.settle_fetch(3, Timeframe::Daily, fetched, 1_000 + TTL_SECONDS + 1);
    assert_eq!(fetches, 2);
}

#[test]
fn a_failed_fetch_is_cached_for_the_window() {
    let mut cache = ChartCache::new(TTL_SECONDS);

    assert!(matches!(cache.begin(5, 10), Lookup::MustCompute));
    let outcome = cache.settle_fetch(
        5,
        Timeframe::Weekly,
        Err(StoreError { detail: "connection refused".to_owned() }),
        11,
    );
    assert!(outcome.is_err());

    // Within the window the cached error itself is served: the failing store
    // is not asked again.
    match cache.begin(5, 12) {
        Lookup::Hit(Err(e)) => assert_eq!(e.detail, "connection refused"),
        _ => panic!("expected the cached error"),
    }
}

#[test]
fn settle_fetch_aggregates_the_fetched_summaries() {
    let mut cache = ChartCache::new(TTL_SECONDS);
    assert!(matches!(cache.begin(9, 50), Lookup::MustCompute));
    let outcome = cache.settle_fetch(9, Timeframe::Monthly, Ok(one_summary()), 51);
    let chart: Chart = outcome.expect("a fetched collection aggregates");
    assert_eq!(chart.timeframe, Timeframe::Monthly);
    assert_eq!(chart.data.len(), 1);
    assert_eq!(chart.data[0].rating.snap_id, "a");
}

#[test]
fn read_settled_sees_nothing_while_in_flight() {
    let mut cache = ChartCache::new(TTL_SECONDS);
    assert!(cache.read_settled(2).is_none());
    assert!(matches!(cache.begin(2, 1), Lookup::MustCompute));
    assert!(cache.read_settled(2).is_none());
    cache.settle(2, Err(StoreError { detail: "late".to_owned() }), 2);
    assert!(cache.read_settled(2).is_some());
}

#[test]
fn requests_for_different_keys_proceed_independently() {
    let mut cache = ChartCache::new(TTL_SECONDS);
    assert!(matches!(cache.begin(1, 100), Lookup::MustCompute));
    // A different key is not blocked by key 1's in-flight computation.
    assert!(matches!(cache.begin(2, 100), Lookup::MustCompute));
    cache.settle_fetch(2, Timeframe::Daily, Ok(one_summary()), 101);
    // Key 2 settled; key 1 is still in flight.
    assert!(matches!(cache.begin(2, 102), Lookup::Hit(_)));
    assert!(matches!(cache.begin(1, 102), Lookup::MustWait));
}
