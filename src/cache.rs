//! The decisions of the cache that sits in front of a provider.
//!
//! The store keeps two entries: the last fetched weather and the instant it
//! expires. One `get` runs as a conversation: the caller reports the time and
//! what the store holds, the cache answers with what to do next (ask the
//! wrapped provider, write the store, or finish with a result), and the
//! caller reports back how that went.

use vstd::prelude::*;

use crate::error::Error;
use crate::time::{Span, Timestamp};
use crate::weather::WeatherInfo;

verus! {

/// What the store holds at the start of a `get`, already decoded. A payload
/// that did not decode counts as absent.
#[derive(Debug, Clone)]
pub struct CacheRecord {
    pub weather: Option<WeatherInfo>,
    pub expiration: Option<Timestamp>,
}

/// Where the cache stands within one `get`.
#[derive(Debug, Clone)]
pub enum Stage {
    /// No `get` is under way.
    Idle,
    /// The wrapped provider was asked; `fallback` is the stored value.
    Fetching { fallback: Option<WeatherInfo>, now: Timestamp },
    /// The fresh value is being written; it is the answer once written.
    Persisting { weather: WeatherInfo },
}

/// What the caller reports.
#[derive(Debug)]
pub enum CacheEvent {
    /// A `get` starts: the time now and what the store holds.
    Begin { now: Timestamp, record: CacheRecord },
    /// The wrapped provider answered.
    Fetched(Result<WeatherInfo, Error>),
    /// The value that `pending` shows was written under both keys, or the
    /// store refused it with the given error.
    Persisted { outcome: Result<(), Error> },
}

/// What the cache asks the caller to do.
#[derive(Debug)]
pub enum CacheAction {
    /// Ask the wrapped provider for the weather.
    FetchUpstream,
    /// Write the value that `pending` shows, with `expiration`, to the store,
    /// then report `Persisted`.
    Persist { expiration: Timestamp },
    /// The `get` is over, with this result.
    Finish(Result<WeatherInfo, Error>),
}

/// A time-to-live cache in front of a provider.
#[derive(Debug, Clone)]
pub struct UnQLiteCache {
    /// How long a fetched value stays fresh.
    pub ttl: Span,
    /// On a failed fetch, answer with the stored value where there is one.
    pub prefer_cache: bool,
    pub stage: Stage,
}

/// The stored value, marked as coming out of the cache.
pub open spec fn as_cached(w: WeatherInfo) -> WeatherInfo {
    WeatherInfo { is_cached: true, ..w }
}

/// The store's expiration lies strictly after `now`.
pub open spec fn is_fresh(record: CacheRecord, now: Timestamp) -> bool {
    record.expiration matches Some(e) && now.precedes(e)
}

/// The store answers a `get` at `now` without asking the provider.
pub open spec fn serves_from_store(record: CacheRecord, now: Timestamp) -> bool {
    is_fresh(record, now) && record.weather is Some
}

/// `ev` is what the cache expects in its present stage.
pub open spec fn expects(c: UnQLiteCache, ev: CacheEvent) -> bool {
    match (c.stage, ev) {
        (Stage::Idle, CacheEvent::Begin { .. }) => true,
        (Stage::Fetching { .. }, CacheEvent::Fetched(_)) => true,
        (Stage::Persisting { .. }, CacheEvent::Persisted { .. }) => true,
        _ => false,
    }
}

/// The cache with another stage.
pub open spec fn in_stage(c: UnQLiteCache, s: Stage) -> UnQLiteCache {
    UnQLiteCache { stage: s, ..c }
}

/// The next stage and action of `c` on an expected event.
pub open spec fn next(c: UnQLiteCache, ev: CacheEvent) -> (UnQLiteCache, CacheAction) {
    match (c.stage, ev) {
        (Stage::Idle, CacheEvent::Begin { now, record }) => {
            if serves_from_store(record, now) {
                (c, CacheAction::Finish(Ok(as_cached(record.weather->0))))
            } else {
                (in_stage(c, Stage::Fetching { fallback: record.weather, now }), CacheAction::FetchUpstream)
            }
        },
        (Stage::Fetching { fallback, now }, CacheEvent::Fetched(answer)) => match answer {
            Ok(w) => (
                in_stage(c, Stage::Persisting { weather: w }),
                CacheAction::Persist { expiration: now.plus(c.ttl) },
            ),
            Err(e) => {
                if c.prefer_cache && fallback is Some {
                    (in_stage(c, Stage::Idle), CacheAction::Finish(Ok(as_cached(fallback->0))))
                } else {
                    (in_stage(c, Stage::Idle), CacheAction::Finish(Err(e)))
                }
            },
        },
        (Stage::Persisting { weather }, CacheEvent::Persisted { outcome }) => (
            in_stage(c, Stage::Idle),
            CacheAction::Finish(
                match outcome {
                    Ok(()) => Ok(weather),
                    Err(e) => Err(e),
                },
            ),
        ),
        _ => (c, CacheAction::FetchUpstream),
    }
}

/// One step: an expected event moves the cache as `next` says; any other
/// event ends the `get` with a cache error and leaves the cache idle.
pub open spec fn transition(c: UnQLiteCache, ev: CacheEvent, c2: UnQLiteCache, a: CacheAction) -> bool {
    if expects(c, ev) {
        (c2, a) == next(c, ev)
    } else {
        &&& c2 == in_stage(c, Stage::Idle)
        &&& a matches CacheAction::Finish(Err(Error::InvalidCache(_)))
    }
}

impl UnQLiteCache {
    /// An idle cache whose values stay fresh for `ttl`.
    pub fn new(ttl: Span, prefer_cache: bool) -> (r: UnQLiteCache)
        ensures
            r.ttl == ttl,
            r.prefer_cache == prefer_cache,
            r.is_idle(),
    {
        UnQLiteCache { ttl, prefer_cache, stage: Stage::Idle }
    }

    /// No `get` is under way.
    pub open spec fn is_idle(self) -> bool {
        self.stage is Idle
    }

    /// The fetched value waiting to be written, while there is one.
    pub fn pending(&self) -> (r: Option<&WeatherInfo>)
        ensures
            r == match self.stage {
                Stage::Persisting { weather } => Some(&weather),
                _ => None,
            },
    {
        match &self.stage {
            Stage::Persisting { weather } => Some(weather),
            _ => None,
        }
    }

    /// Takes the caller's report and says what to do next.
    pub fn step(&mut self, event: CacheEvent) -> (a: CacheAction)
        ensures
            transition(*old(self), event, *final(self), a),
    {
        let mut stage = Stage::Idle;
        std::mem::swap(&mut self.stage, &mut stage);
        match (stage, event) {
            (Stage::Idle, CacheEvent::Begin { now, record }) => {
                let fresh = match &record.expiration {
                    Some(e) => now.is_before(e),
                    None => false,
                };
                match record.weather {
                    Some(w) => {
                        if fresh {
                            let mut w = w;
                            w.is_cached = true;
                            CacheAction::Finish(Ok(w))
                        } else {
                            self.stage = Stage::Fetching { fallback: Some(w), now };
                            CacheAction::FetchUpstream
                        }
                    },
                    None => {
                        self.stage = Stage::Fetching { fallback: None, now };
                        CacheAction::FetchUpstream
                    },
                }
            },
            (Stage::Fetching { fallback, now }, CacheEvent::Fetched(answer)) => match answer {
                Ok(w) => {
                    let expiration = now.saturating_add(&self.ttl);
                    self.stage = Stage::Persisting { weather: w };
                    CacheAction::Persist { expiration }
                },
                Err(e) => {
                    match fallback {
                        Some(w) => {
                            if self.prefer_cache {
                                let mut w = w;
                                w.is_cached = true;
                                CacheAction::Finish(Ok(w))
                            } else {
                                CacheAction::Finish(Err(e))
                            }
                        },
                        None => CacheAction::Finish(Err(e)),
                    }
                },
            },
            (Stage::Persisting { weather }, CacheEvent::Persisted { outcome }) => match outcome {
                Ok(()) => CacheAction::Finish(Ok(weather)),
                Err(e) => CacheAction::Finish(Err(e)),
            },
            _ => CacheAction::Finish(Err(Error::InvalidCache("event out of order".to_owned()))),
        }
    }
}

/// What the store holds after a fetch of `w` at `now` was written.
pub open spec fn written_after_fetch(c: UnQLiteCache, w: WeatherInfo, now: Timestamp) -> CacheRecord {
    CacheRecord { weather: Some(w), expiration: Some(now.plus(c.ttl)) }
}

/// A `get` that finds no fresh value asks the provider once and writes its
/// answer with an expiration one time-to-live ahead; a second `get` before
/// that expiration answers from the store, marked as cached, without asking
/// the provider again.
pub proof fn law_second_get_within_ttl_is_served_from_store(
    c: UnQLiteCache,
    record: CacheRecord,
    t0: Timestamp,
    w: WeatherInfo,
    t1: Timestamp,
)
    requires
        c.is_idle(),
        !serves_from_store(record, t0),
        t1.precedes(t0.plus(c.ttl)),
    ensures
        ({
            let (c1, a1) = next(c, CacheEvent::Begin { now: t0, record });
            let (c2, a2) = next(c1, CacheEvent::Fetched(Ok(w)));
            let (c3, a3) = next(c2, CacheEvent::Persisted { outcome: Ok(()) });
            let stored = written_after_fetch(c, w, t0);
            let (c4, a4) = next(c3, CacheEvent::Begin { now: t1, record: stored });
            &&& expects(c, CacheEvent::Begin { now: t0, record })
            &&& a1 is FetchUpstream
            &&& expects(c1, CacheEvent::Fetched(Ok(w)))
            &&& a2 == CacheAction::Persist { expiration: t0.plus(c.ttl) }
            &&& c2.stage == Stage::Persisting { weather: w }
            &&& expects(c2, CacheEvent::Persisted { outcome: Ok(()) })
            &&& a3 == CacheAction::Finish(Ok(w))
            &&& c3.is_idle()
            &&& expects(c3, CacheEvent::Begin { now: t1, record: stored })
            &&& a4 == CacheAction::Finish(Ok(as_cached(w)))
            &&& as_cached(w).is_cached
            &&& c4.is_idle()
        }),
{
}

/// Once the expiration written by a fetch is reached, the next `get` asks the
/// provider again and answers with the provider's new value as it came.
pub proof fn law_get_after_expiration_fetches(
    c: UnQLiteCache,
    w: WeatherInfo,
    t0: Timestamp,
    t1: Timestamp,
    w2: WeatherInfo,
)
    requires
        c.is_idle(),
        !t1.precedes(t0.plus(c.ttl)),
    ensures
        ({
            let (c1, a1) = next(c, CacheEvent::Begin { now: t1, record: written_after_fetch(c, w, t0) });
            let (c2, a2) = next(c1, CacheEvent::Fetched(Ok(w2)));
            let (c3, a3) = next(c2, CacheEvent::Persisted { outcome: Ok(()) });
            &&& a1 is FetchUpstream
            &&& a2 == CacheAction::Persist { expiration: t1.plus(c.ttl) }
            &&& expects(c2, CacheEvent::Persisted { outcome: Ok(()) })
            &&& a3 == CacheAction::Finish(Ok(w2))
            &&& c3.is_idle()
        }),
{
}

/// When the provider fails and the cache prefers stored data, a stored value
/// is the answer, marked as cached; without one the provider's error is.
pub proof fn law_failure_falls_back_to_store(c: UnQLiteCache, record: CacheRecord, now: Timestamp, e: Error)
    requires
        c.is_idle(),
        c.prefer_cache,
        !serves_from_store(record, now),
    ensures
        ({
            let (c1, a1) = next(c, CacheEvent::Begin { now, record });
            let (c2, a2) = next(c1, CacheEvent::Fetched(Err(e)));
            &&& a1 is FetchUpstream
            &&& expects(c1, CacheEvent::Fetched(Err(e)))
            &&& c2.is_idle()
            &&& (record.weather matches Some(p) ==> a2 == CacheAction::Finish(Ok(as_cached(p))))
            &&& (record.weather is None ==> a2 == CacheAction::Finish(Err(e)))
        }),
{
}

/// When the cache does not prefer stored data, the provider's error is the
/// answer as it came, whatever the store holds.
pub proof fn law_failure_surfaces_without_preference(c: UnQLiteCache, record: CacheRecord, now: Timestamp, e: Error)
    requires
        c.is_idle(),
        !c.prefer_cache,
        !serves_from_store(record, now),
    ensures
        ({
            let (c1, a1) = next(c, CacheEvent::Begin { now, record });
            let (c2, a2) = next(c1, CacheEvent::Fetched(Err(e)));
            &&& a1 is FetchUpstream
            &&& expects(c1, CacheEvent::Fetched(Err(e)))
            &&& a2 == CacheAction::Finish(Err(e))
            &&& c2.is_idle()
        }),
{
}

/// A `get` served from the store writes nothing, so the expiration stays
/// where the fetch put it: a later `get` at or past it asks the provider and
/// answers with the provider's new value as it came.
pub proof fn law_hit_keeps_expiration(
    c: UnQLiteCache,
    w: WeatherInfo,
    t0: Timestamp,
    t1: Timestamp,
    t2: Timestamp,
    w2: WeatherInfo,
)
    requires
        c.is_idle(),
        t1.precedes(t0.plus(c.ttl)),
        !t2.precedes(t0.plus(c.ttl)),
    ensures
        ({
            let stored = written_after_fetch(c, w, t0);
            let (c1, a1) = next(c, CacheEvent::Begin { now: t1, record: stored });
            let (c2, a2) = next(c1, CacheEvent::Begin { now: t2, record: stored });
            let (c3, a3) = next(c2, CacheEvent::Fetched(Ok(w2)));
            let (c4, a4) = next(c3, CacheEvent::Persisted { outcome: Ok(()) });
            &&& a1 == CacheAction::Finish(Ok(as_cached(w)))
            &&& c1.is_idle()
            &&& expects(c1, CacheEvent::Begin { now: t2, record: stored })
            &&& a2 is FetchUpstream
            &&& a3 == CacheAction::Persist { expiration: t2.plus(c.ttl) }
            &&& a4 == CacheAction::Finish(Ok(w2))
            &&& c4.is_idle()
        }),
{
}

/// Within one `get` the provider is asked at most once: once it has been
/// asked, the cache only writes or finishes.
pub proof fn law_at_most_one_fetch_per_get(c: UnQLiteCache, ev: CacheEvent)
    requires
        !c.is_idle(),
    ensures
        forall|c2: UnQLiteCache, a: CacheAction| transition(c, ev, c2, a) ==> !(a is FetchUpstream),
{
}

} // verus!
