use ttl_memo::CacheError;
use ttl_memo::Decision;
use ttl_memo::TtlCache;

fn fresh(ttl: u64) -> TtlCache {
    TtlCache::new(ttl).expect("positive TTL must be accepted")
}

#[test]
fn zero_ttl_is_invalid_configuration() {
    match TtlCache::new(0) {
        Err(e) => assert_eq!(e, CacheError::InvalidConfiguration),
        Ok(_) => panic!("a zero TTL must be rejected"),
    }
}

#[test]
fn construction_keeps_the_ttl() {
    let cache = fresh(10);
    assert_eq!(cache.ttl(), 10);
    let cache = fresh(1);
    assert_eq!(cache.ttl(), 1);
    let cache = fresh(u64::MAX);
    assert_eq!(cache.ttl(), u64::MAX);
}

#[test]
fn first_request_computes() {
    let mut cache = fresh(10);
    assert_eq!(cache.request(1, 0), Decision::Compute);
    assert!(cache.in_flight(1));
}

#[test]
fn hit_within_ttl() {
    let mut cache = fresh(10);
    assert_eq!(cache.request(7, 0), Decision::Compute);
    cache.complete(7, String::from("seven"), 0);
    assert!(!cache.in_flight(7));
    for now in 0..10 {
        assert_eq!(cache.request(7, now), Decision::Hit(String::from("seven")));
    }
    assert_eq!(cache.request(7, 10), Decision::Compute);
}

#[test]
fn miss_after_ttl_stores_a_new_expiry() {
    let mut cache = fresh(10);
    assert_eq!(cache.request(7, 0), Decision::Compute);
    cache.complete(7, String::from("same"), 0);
    // Expired at 10: the producer runs again even for an identical value,
    // and the entry is re-stamped to expire at 15 + 10 = 25.
    assert_eq!(cache.request(7, 15), Decision::Compute);
    cache.complete(7, String::from("same"), 15);
    assert_eq!(cache.request(7, 24), Decision::Hit(String::from("same")));
    assert_eq!(cache.request(7, 25), Decision::Compute);
}

#[test]
fn single_flight_second_caller_waits() {
    let mut cache = fresh(10);
    assert_eq!(cache.request(3, 0), Decision::Compute);
    // Concurrent requests for the same missing key must not start a second
    // producer run: they wait for the one in flight.
    assert_eq!(cache.request(3, 0), Decision::Wait);
    assert_eq!(cache.request(3, 5), Decision::Wait);
    cache.complete(3, String::from("shared"), 5);
    assert_eq!(cache.request(3, 5), Decision::Hit(String::from("shared")));
}

#[test]
fn distinct_keys_are_independent() {
    let mut cache = fresh(10);
    assert_eq!(cache.request(1, 0), Decision::Compute);
    // A computation in flight for key 1 does not block key 2.
    assert_eq!(cache.request(2, 0), Decision::Compute);
    cache.complete(1, String::from("one"), 0);
    // Completing key 1 neither invalidates nor resolves key 2.
    assert_eq!(cache.request(2, 1), Decision::Wait);
    cache.complete(2, String::from("two"), 1);
    assert_eq!(cache.request(1, 2), Decision::Hit(String::from("one")));
    assert_eq!(cache.request(2, 2), Decision::Hit(String::from("two")));
    cache.fail(1);
    assert_eq!(cache.request(2, 3), Decision::Hit(String::from("two")));
}

#[test]
fn producer_failure_is_surfaced_and_not_cached() {
    let mut cache = fresh(10);
    assert_eq!(cache.request(9, 0), Decision::Compute);
    let out = cache.on_producer_result(9, Err(String::from("connection reset")), 1);
    assert_eq!(
        out,
        Err(CacheError::ProducerFailure(String::from("connection reset")))
    );
    assert!(!cache.in_flight(9));
    // The immediately following request retries the producer from scratch.
    assert_eq!(cache.request(9, 1), Decision::Compute);
}

#[test]
fn failure_after_expiry_leaves_old_entry_stale() {
    let mut cache = fresh(10);
    assert_eq!(cache.request(4, 0), Decision::Compute);
    cache.complete(4, String::from("old"), 0);
    assert_eq!(cache.request(4, 10), Decision::Compute);
    let out = cache.on_producer_result(4, Err(String::from("boom")), 11);
    assert_eq!(out, Err(CacheError::ProducerFailure(String::from("boom"))));
    // The stale entry is not revived by the failure: still a miss.
    assert_eq!(cache.request(4, 11), Decision::Compute);
}

#[test]
fn on_producer_result_success_stores_and_returns() {
    let mut cache = fresh(10);
    assert_eq!(cache.request(5, 0), Decision::Compute);
    let out = cache.on_producer_result(5, Ok(String::from("value")), 2);
    assert_eq!(out, Ok(String::from("value")));
    assert!(!cache.in_flight(5));
    assert_eq!(cache.request(5, 11), Decision::Hit(String::from("value")));
    assert_eq!(cache.request(5, 12), Decision::Compute);
}

#[test]
fn fail_clears_only_the_marker() {
    let mut cache = fresh(10);
    assert_eq!(cache.request(6, 0), Decision::Compute);
    assert!(cache.in_flight(6));
    cache.fail(6);
    assert!(!cache.in_flight(6));
    assert_eq!(cache.request(6, 0), Decision::Compute);
}

#[test]
fn concrete_scenario() {
    // TTL = 10 time-units; the producer for key 1 yields "Data for ID: 1"
    // after a simulated 2-unit delay.
    let mut cache = fresh(10);

    // Call at t=0: miss; the producer finishes at t=2 and the value is
    // stored, expiring at 12.
    assert_eq!(cache.request(1, 0), Decision::Compute);
    let v1 = cache
        .on_producer_result(1, Ok(ttl_memo::data_for_id(1)), 2)
        .expect("producer succeeded");
    assert_eq!(v1, "Data for ID: 1");

    // Call at t=2, immediately after: hit, no new delay.
    assert_eq!(
        cache.request(1, 2),
        Decision::Hit(String::from("Data for ID: 1"))
    );

    // Call at t=13, past the expiry at 12: miss again, the producer is
    // re-invoked with its 2-unit delay, and the new entry expires at 25.
    assert_eq!(cache.request(1, 13), Decision::Compute);
    let v3 = cache
        .on_producer_result(1, Ok(ttl_memo::data_for_id(1)), 15)
        .expect("producer succeeded");
    assert_eq!(v3, "Data for ID: 1");
    assert_eq!(
        cache.request(1, 24),
        Decision::Hit(String::from("Data for ID: 1"))
    );
    assert_eq!(cache.request(1, 25), Decision::Compute);
}
