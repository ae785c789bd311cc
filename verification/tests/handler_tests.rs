use ratings::cache::Lookup;
use ratings::domain::{Category, Chart, RatingsBand, Timeframe, VoteSummary};
use ratings::handler::{
    chart_outcome, finish, validate_request, ChartQuery, ChartService, LookupError, RequestError,
    StartOutcome,
};
use ratings::wire::{PbRating, PbRatingsBand};
use ratings::domain::Rating;
use ratings::cache::StoreError;

fn summary(id: &str, raw: f64, votes: u64, band: RatingsBand) -> VoteSummary {
    VoteSummary {
        snap_id: id.to_owned(),
        raw_rating: raw.to_bits(),
        total_votes: votes,
        ratings_band: band,
    }
}

#[test]
fn unknown_category_is_a_client_error() {
    let r = validate_request(2, Some(9999));
    assert!(matches!(r, Err(RequestError::InvalidCategory)));
}

#[test]
fn unknown_timeframe_proceeds_as_unspecified() {
    let q = validate_request(99, Some(8)).expect("lenient timeframe decoding");
    assert_eq!(q.timeframe, Timeframe::Unspecified);
    assert_eq!(q.category, Some(Category::Games));
}

#[test]
fn absent_category_means_all_categories() {
    let q = validate_request(2, None).expect("no category is a valid request");
    assert_eq!(q.timeframe, Timeframe::Weekly);
    assert_eq!(q.category, None);
}

#[test]
fn rejected_request_records_zero_store_calls() {
    let mut service = ChartService::new_server();
    let mut fetches: u32 = 0;

    // category=9999: an undefined ordinal.
    match service.start(1, Some(9999), 1_000) {
        StartOutcome::Rejected(e) => {
            assert!(matches!(e, RequestError::InvalidCategory));
            assert_eq!(e.message(), "invalid category value");
        }
        StartOutcome::Proceed { .. } => {
            // Only a Proceed telling us to compute would ever reach the store.
            fetches += 1;
            panic!("an invalid category must never reach the cache or store");
        }
    }
    assert_eq!(fetches, 0);
    // The cache was left untouched: a later valid request still starts cold.
    assert!(service.cache.read_settled(0).is_none());
}

#[test]
fn empty_chart_is_not_found() {
    // Store returns [] for (category=Games, timeframe=Daily).
    let mut service = ChartService::new_server();
    let outcome = match service.start(1, Some(8), 500) {
        StartOutcome::Proceed { query, lookup } => {
            assert_eq!(query.timeframe, Timeframe::Daily);
            assert_eq!(query.category, Some(Category::Games));
            assert!(matches!(lookup, Lookup::MustCompute));
            service.cache.settle_fetch(query.key(), query.timeframe, Ok(Vec::new()), 501)
        }
        StartOutcome::Rejected(_) => panic!("a known category must proceed"),
    };
    match chart_outcome(outcome) {
        Err(e) => {
            assert!(matches!(e, RequestError::NotFound));
            assert_eq!(e.message(), "Cannot find data for given timeframe.");
        }
        Ok(_) => panic!("an empty chart is not a valid response"),
    }
}

#[test]
fn store_failure_is_an_opaque_internal_error() {
    let r = chart_outcome(Err(StoreError { detail: "pool exhausted".to_owned() }));
    match r {
        Err(e) => {
            assert!(matches!(e, RequestError::Internal { ref detail } if detail == "pool exhausted"));
            assert_eq!(e.message(), "Internal server error");
        }
        Ok(_) => panic!("a store failure cannot produce a chart"),
    }
}

#[test]
fn one_failed_lookup_fails_the_whole_request() {
    let chart = Chart::new(
        Timeframe::Weekly,
        vec![
            summary("a", 9.1, 500, RatingsBand::VeryGood),
            summary("b", 7.0, 10, RatingsBand::Neutral),
            summary("c", 5.0, 3, RatingsBand::Poor),
        ],
    );
    let query = ChartQuery { timeframe: Timeframe::Weekly, category: None };
    let results = vec![
        Ok("Alpha".to_owned()),
        Err(LookupError::Timeout),
        Ok("Gamma".to_owned()),
    ];
    match finish(query, &chart, &results) {
        Err(e) => assert!(matches!(e, RequestError::Internal { .. })),
        Ok(_) => panic!("a partial enrichment must never be returned"),
    }
}

#[test]
fn enriched_response_preserves_the_chart_order() {
    // Store returns a then b for (category=None, timeframe=Weekly); the
    // lookups resolve a to "Alpha" and b to "Beta".
    let mut service = ChartService::new_server();
    let query = match service.start(2, None, 1_000) {
        StartOutcome::Proceed { query, lookup } => {
            assert!(matches!(lookup, Lookup::MustCompute));
            query
        }
        StartOutcome::Rejected(_) => panic!("a request without a category is valid"),
    };
    let fetched = Ok(vec![
        summary("a", 9.1, 500, RatingsBand::VeryGood),
        summary("b", 7.0, 10, RatingsBand::Neutral),
    ]);
    let outcome = service.cache.settle_fetch(query.key(), query.timeframe, fetched, 1_001);
    let chart = chart_outcome(outcome).expect("two entries are not empty");

    let ids = ratings::handler::item_ids(&chart);
    assert_eq!(ids, vec!["a".to_owned(), "b".to_owned()]);

    // The lookups completed out of order; collection is positional.
    let results = vec![Ok("Alpha".to_owned()), Ok("Beta".to_owned())];
    let resp = finish(query, &chart, &results).expect("every lookup resolved");

    assert_eq!(resp.timeframe, Timeframe::Weekly.repr());
    assert_eq!(resp.category, None);
    assert_eq!(resp.ordered_chart_data.len(), 2);

    let first = &resp.ordered_chart_data[0];
    assert_eq!(f64::from_bits(first.raw_rating), 9.1);
    let first_rating = first.rating.as_ref().unwrap();
    assert_eq!(first_rating.snap_name, "Alpha");
    assert_eq!(first_rating.snap_id, "a");
    assert_eq!(first_rating.total_votes, 500);
    assert_eq!(first_rating.ratings_band, RatingsBand::VeryGood.repr());

    let second = &resp.ordered_chart_data[1];
    assert_eq!(f64::from_bits(second.raw_rating), 7.0);
    let second_rating = second.rating.as_ref().unwrap();
    assert_eq!(second_rating.snap_name, "Beta");
    assert_eq!(second_rating.snap_id, "b");
    assert_eq!(second_rating.total_votes, 10);
    assert_eq!(second_rating.ratings_band, RatingsBand::Neutral.repr());
}

#[test]
fn queries_with_and_without_a_category_use_distinct_keys() {
    let with = ChartQuery { timeframe: Timeframe::Daily, category: Some(Category::Games) };
    let without = ChartQuery { timeframe: Timeframe::Daily, category: None };
    let other_window = ChartQuery { timeframe: Timeframe::Weekly, category: Some(Category::Games) };
    assert_ne!(with.key(), without.key());
    assert_ne!(with.key(), other_window.key());
    assert_ne!(without.key(), other_window.key());
}

#[test]
fn rating_survives_its_wire_form() {
    let pb = PbRating {
        snap_id: "a".to_owned(),
        total_votes: 500,
        ratings_band: RatingsBand::VeryGood.repr(),
        snap_name: "Alpha".to_owned(),
    };
    let rating = Rating::from(pb);
    assert_eq!(rating.snap_id, "a");
    assert_eq!(rating.total_votes, 500);
    assert_eq!(rating.ratings_band, RatingsBand::VeryGood);
}

#[test]
fn wire_band_mirrors_the_domain_band() {
    assert_eq!(PbRatingsBand::from(RatingsBand::VeryGood), PbRatingsBand::VeryGood);
    assert_eq!(PbRatingsBand::from(RatingsBand::Good), PbRatingsBand::Good);
    assert_eq!(PbRatingsBand::from(RatingsBand::Neutral), PbRatingsBand::Neutral);
    assert_eq!(PbRatingsBand::from(RatingsBand::Poor), PbRatingsBand::Poor);
    assert_eq!(PbRatingsBand::from(RatingsBand::VeryPoor), PbRatingsBand::VeryPoor);
    assert_eq!(
        PbRatingsBand::from(RatingsBand::InsufficientVotes),
        PbRatingsBand::InsufficientVotes
    );
}
