use forecast::cache::{CacheAction, CacheEvent, CacheRecord, UnQLiteCache};
use forecast::error::Error;
use forecast::temperature::Temperature;
use forecast::temperature::Unit::Celsius;
use forecast::time::{Span, Timestamp};
use forecast::weather::WeatherInfo;

fn at(secs: u64) -> Timestamp {
    Timestamp { secs, nanos: 0 }
}

fn weather(t: i16, created: u64) -> WeatherInfo {
    WeatherInfo {
        is_cached: false,
        created_at: at(created),
        temp: Temperature::new(t, Celsius),
        feels_like: None,
        humidity: Some(50),
        icon: None,
        condition: None,
        forecasts: None,
        daytime: None,
    }
}

/// A provider that counts its calls and answers from a script.
struct Stub {
    calls: usize,
    answers: Vec<Result<WeatherInfo, Error>>,
}

impl Stub {
    fn get(&mut self) -> Result<WeatherInfo, Error> {
        let a = self.answers[self.calls.min(self.answers.len() - 1)].clone();
        self.calls += 1;
        a
    }
}

/// Runs one `get` through the cache, the stub and an in-memory store.
fn get(cache: &mut UnQLiteCache, store: &mut CacheRecord, stub: &mut Stub, now: Timestamp) -> Result<WeatherInfo, Error> {
    let mut action = cache.step(CacheEvent::Begin { now, record: store.clone() });
    loop {
        action = match action {
            CacheAction::FetchUpstream => cache.step(CacheEvent::Fetched(stub.get())),
            CacheAction::Persist { expiration } => {
                store.weather = cache.pending().cloned();
                store.expiration = Some(expiration);
                cache.step(CacheEvent::Persisted { outcome: Ok(()) })
            }
            CacheAction::Finish(r) => return r,
        }
    }
}

fn empty() -> CacheRecord {
    CacheRecord { weather: None, expiration: None }
}

const TTL: Span = Span { secs: 1800, nanos: 0 };

#[test]
fn second_get_within_ttl_uses_store() {
    let mut cache = UnQLiteCache::new(TTL, false);
    let mut store = empty();
    let mut stub = Stub { calls: 0, answers: vec![Ok(weather(18, 0))] };
    let first = get(&mut cache, &mut store, &mut stub, at(1000)).unwrap();
    assert!(!first.is_cached);
    assert_eq!(store.expiration, Some(at(2800)));
    let second = get(&mut cache, &mut store, &mut stub, at(2000)).unwrap();
    assert_eq!(stub.calls, 1);
    assert!(second.is_cached);
    assert_eq!(second.temp.val(), 18);
    assert_eq!(second.created_at, at(0));
}

#[test]
fn get_after_expiration_calls_provider_again() {
    let mut cache = UnQLiteCache::new(TTL, false);
    let mut store = empty();
    let mut stub = Stub { calls: 0, answers: vec![Ok(weather(18, 0)), Ok(weather(11, 5000))] };
    get(&mut cache, &mut store, &mut stub, at(1000)).unwrap();
    let later = get(&mut cache, &mut store, &mut stub, at(2800)).unwrap();
    assert_eq!(stub.calls, 2);
    assert!(!later.is_cached);
    assert_eq!(later.temp.val(), 11);
    assert_eq!(store.expiration, Some(at(4600)));
}

#[test]
fn failure_with_preference_returns_stored_value() {
    let mut cache = UnQLiteCache::new(TTL, true);
    let mut store = CacheRecord { weather: Some(weather(3, 0)), expiration: Some(at(10)) };
    let mut stub = Stub { calls: 0, answers: vec![Err(Error::HttpError("down".to_string()))] };
    let w = get(&mut cache, &mut store, &mut stub, at(100)).unwrap();
    assert_eq!(stub.calls, 1);
    assert!(w.is_cached);
    assert_eq!(w.temp.val(), 3);
    assert_eq!(store.expiration, Some(at(10)));
}

#[test]
fn failure_with_preference_and_empty_store_surfaces_error() {
    let mut cache = UnQLiteCache::new(TTL, true);
    let mut store = empty();
    let mut stub = Stub { calls: 0, answers: vec![Err(Error::InvalidResponse)] };
    let r = get(&mut cache, &mut store, &mut stub, at(100));
    assert_eq!(r.unwrap_err(), Error::InvalidResponse);
}

#[test]
fn failure_without_preference_surfaces_error_verbatim() {
    let mut cache = UnQLiteCache::new(TTL, false);
    let mut store = CacheRecord { weather: Some(weather(3, 0)), expiration: Some(at(10)) };
    let err = Error::InvalidRequest { text: "bad key".to_string(), code: 403 };
    let mut stub = Stub { calls: 0, answers: vec![Err(err.clone())] };
    let r = get(&mut cache, &mut store, &mut stub, at(100));
    assert_eq!(r.unwrap_err(), err);
}

#[test]
fn hit_does_not_slide_expiration() {
    let mut cache = UnQLiteCache::new(TTL, false);
    let mut store = empty();
    let mut stub = Stub { calls: 0, answers: vec![Ok(weather(18, 0)), Ok(weather(20, 0))] };
    get(&mut cache, &mut store, &mut stub, at(0)).unwrap();
    let hit = get(&mut cache, &mut store, &mut stub, at(900)).unwrap();
    assert!(hit.is_cached);
    assert_eq!(store.expiration, Some(at(1800)));
    let after = get(&mut cache, &mut store, &mut stub, at(1800)).unwrap();
    assert_eq!(stub.calls, 2);
    assert_eq!(after.temp.val(), 20);
}

#[test]
fn fresh_expiration_without_value_fetches() {
    let mut cache = UnQLiteCache::new(TTL, false);
    let mut store = CacheRecord { weather: None, expiration: Some(at(5000)) };
    let mut stub = Stub { calls: 0, answers: vec![Ok(weather(1, 0))] };
    get(&mut cache, &mut store, &mut stub, at(100)).unwrap();
    assert_eq!(stub.calls, 1);
}

#[test]
fn failed_write_is_reported() {
    let mut cache = UnQLiteCache::new(TTL, false);
    let a = cache.step(CacheEvent::Begin { now: at(0), record: empty() });
    assert!(matches!(a, CacheAction::FetchUpstream));
    let a = cache.step(CacheEvent::Fetched(Ok(weather(1, 0))));
    match a {
        CacheAction::Persist { expiration } => assert_eq!(expiration, at(1800)),
        other => panic!("{:?}", other),
    }
    assert_eq!(cache.pending().map(|w| w.temp.val()), Some(1));
    let a = cache.step(CacheEvent::Persisted { outcome: Err(Error::InvalidCache("disk full".to_string())) });
    assert!(matches!(a, CacheAction::Finish(Err(Error::InvalidCache(m))) if m == "disk full"));
}

#[test]
fn answer_is_the_fetched_value() {
    let mut cache = UnQLiteCache::new(TTL, false);
    cache.step(CacheEvent::Begin { now: at(0), record: empty() });
    cache.step(CacheEvent::Fetched(Ok(weather(21, 7))));
    let a = cache.step(CacheEvent::Persisted { outcome: Ok(()) });
    match a {
        CacheAction::Finish(Ok(w)) => {
            assert_eq!(w.temp.val(), 21);
            assert_eq!(w.created_at, at(7));
            assert!(!w.is_cached);
        }
        other => panic!("{:?}", other),
    }
    assert!(cache.pending().is_none());
}

#[test]
fn event_out_of_order_ends_with_cache_error() {
    let mut cache = UnQLiteCache::new(TTL, false);
    let a = cache.step(CacheEvent::Fetched(Ok(weather(1, 0))));
    assert!(matches!(a, CacheAction::Finish(Err(Error::InvalidCache(_)))));
    let a = cache.step(CacheEvent::Begin { now: at(0), record: empty() });
    assert!(matches!(a, CacheAction::FetchUpstream));
}

#[test]
fn expiration_adds_nanoseconds_with_carry_and_saturates() {
    let t = Timestamp { secs: 10, nanos: 600_000_000 };
    let d = Span { secs: 1, nanos: 700_000_000 };
    assert_eq!(t.saturating_add(&d), Timestamp { secs: 12, nanos: 300_000_000 });
    let end = Timestamp { secs: u64::MAX, nanos: 0 };
    assert_eq!(end.saturating_add(&d), Timestamp { secs: u64::MAX, nanos: 999_999_999 });
    assert!(t.is_before(&Timestamp { secs: 10, nanos: 600_000_001 }));
    assert!(!t.is_before(&t));
}
