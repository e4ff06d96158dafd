use wx::cache::Cache;
use wx::errors::WxError;

#[test]
fn cache_round_trip_same_moment() {
    let mut cache = Cache::open("/tmp/wx_test_cache_round_trip").unwrap_or_else(|e| {
        panic!("open failed: {}", e.message());
    });
    let key = "geo:seattle";
    let value: Vec<u8> = b"payload-bytes".to_vec();
    cache.set_at(key, &value, 1000).expect("set failed");
    let got = cache.get_at(key, 0, 1000);
    assert_eq!(got, Some(value));
}

#[test]
fn cache_round_trip_with_clock() {
    let mut cache = Cache::open("/tmp/wx_test_cache_clock").unwrap_or_else(|e| {
        panic!("open failed: {}", e.message());
    });
    let value: Vec<u8> = vec![1, 2, 3, 4];
    cache.set("forecast:47.6000,-122.3000", &value).expect("set failed");
    let got = cache.get("forecast:47.6000,-122.3000", 60);
    assert_eq!(got, Some(value));
}

#[test]
fn cache_expiry_purges_entry() {
    let mut cache = Cache::open("/tmp/wx_test_cache_expiry").unwrap_or_else(|e| {
        panic!("open failed: {}", e.message());
    });
    let key = "alerts:47.6000,-122.3000";
    let value: Vec<u8> = vec![9, 9, 9];
    let ttl: u64 = 10;
    let now: u64 = 5000;
    // Fabricate an entry written ttl + 1 seconds ago.
    cache.set_at(key, &value, now - (ttl + 1)).expect("set failed");
    assert_eq!(cache.get_at(key, ttl, now), None);
    // The entry was purged: any later TTL still reads as absent.
    assert_eq!(cache.get_at(key, u64::MAX, now), None);
}

#[test]
fn cache_survives_reopen() {
    let dir = "/tmp/wx_test_cache_reopen";
    {
        let mut cache = Cache::open(dir).unwrap_or_else(|e| {
            panic!("open failed: {}", e.message());
        });
        cache.set_at("geo:tacoma", &b"persisted".to_vec(), 77).expect("set failed");
    }
    let mut cache = Cache::open(dir).unwrap_or_else(|e| {
        panic!("reopen failed: {}", e.message());
    });
    assert_eq!(cache.get_at("geo:tacoma", 1, 77), Some(b"persisted".to_vec()));
}

#[test]
fn cache_remove_and_clear() {
    let mut cache = Cache::open("/tmp/wx_test_cache_remove").unwrap_or_else(|e| {
        panic!("open failed: {}", e.message());
    });
    cache.clear().expect("clear failed");
    cache.set_at("a", &vec![1], 10).expect("set failed");
    cache.set_at("b", &vec![2], 10).expect("set failed");
    assert_eq!(cache.stats().entries, 2);
    cache.remove("a").expect("remove failed");
    assert_eq!(cache.get_at("a", 100, 10), None);
    assert_eq!(cache.stats().entries, 1);
    cache.clear().expect("clear failed");
    assert_eq!(cache.stats().entries, 0);
}

#[test]
fn cache_open_bad_path_is_storage_error() {
    match Cache::open("/dev/null/not-a-directory") {
        Ok(_) => panic!("opening under /dev/null should fail"),
        Err(e) => {
            assert!(matches!(e, WxError::Storage(_)));
            assert!(!e.message().is_empty());
        }
    }
}

#[test]
fn geocode_key_normalizes_case_and_whitespace() {
    assert_eq!(Cache::geocode_key(" Seattle "), Cache::geocode_key("seattle"));
    assert_eq!(Cache::geocode_key(" Seattle "), "geo:seattle");
    assert_eq!(Cache::geocode_key("\tNew York\n"), "geo:new york");
}

#[test]
fn coordinate_keys_use_four_decimals() {
    assert_eq!(Cache::forecast_key(476000, -1223000), "forecast:47.6000,-122.3000");
    assert_eq!(Cache::alerts_key(476038, -1223215), "alerts:47.6038,-122.3215");
    assert_eq!(Cache::forecast_key(0, 0), "forecast:0.0000,0.0000");
    assert_eq!(Cache::forecast_key(-5, 10000000), "forecast:-0.0005,1000.0000");
}

#[test]
fn ttl_table_is_fixed() {
    assert_eq!(wx::cache::TTL_GEOCODE, 86400 * 365);
    assert_eq!(wx::cache::TTL_FORECAST, 600);
    assert_eq!(wx::cache::TTL_ALERTS, 300);
    assert_eq!(wx::cache::TTL_STORY, 1800);
}
