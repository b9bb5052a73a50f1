//! The configuration, the command-line flags that override it, and its rules.

use vstd::prelude::*;

use crate::cache::UnQLiteCache;
use crate::error::Error;
use crate::time::Span;

verus! {

/// The template shown when the configuration names none.
pub const DEFAULT_DISPLAY: &'static str = "{{ temperature_celsius_full }}";

/// The command-line flags.
#[derive(Debug, Clone)]
pub struct Args {
    pub config_file: Option<String>,
    pub no_cache: bool,
    pub prefer_cache_error: bool,
    pub debug: bool,
}

/// The weather backends.
#[derive(Debug, Clone, Copy, PartialEq, Eq, Structural)]
pub enum Provider {
    Yandex,
}

/// Units of a period of time.
#[derive(Debug, Clone, Copy, PartialEq, Eq, Structural)]
pub enum Period {
    Second,
    Minute,
    Hour,
    Day,
}

/// How the vendor is reached: key, place and how to introduce ourselves.
#[derive(Debug, Clone)]
pub struct ConfigYandex {
    pub api_key: String,
    /// Latitude in decimal degrees.
    pub lat: String,
    /// Longitude in decimal degrees.
    pub lon: String,
    /// Language of the answer.
    pub lang: Option<String>,
    pub user_agent: String,
}

/// The cache section.
#[derive(Debug, Clone, Copy, PartialEq, Eq, Structural)]
pub struct Cache {
    pub enabled: bool,
    /// How long a fetched value stays fresh.
    pub expiration: Option<Span>,
}

/// The whole configuration.
#[derive(Debug, Clone)]
pub struct Config {
    pub provider: Provider,
    pub display: String,
    pub cache: Option<Cache>,
    pub yandex: Option<ConfigYandex>,
    pub prefer_cache_error: bool,
    pub debug: bool,
}

/// The configuration breaks a rule: the cache is on but has no expiration.
pub open spec fn cache_lacks_expiration(c: Option<Cache>) -> bool {
    c matches Some(cache) && cache.enabled && cache.expiration is None
}

/// The display template used when the configuration gives none.
pub fn default_display() -> (r: String)
    ensures
        r@ == DEFAULT_DISPLAY@,
{
    DEFAULT_DISPLAY.to_owned()
}

impl Config {
    /// Lets the flags override the file: `no_cache` drops the cache section,
    /// `prefer_cache_error` and `debug` replace their settings.
    pub fn merge_args(&mut self, args: &Args)
        ensures
            final(self).cache == (if args.no_cache { None } else { old(self).cache }),
            final(self).prefer_cache_error == args.prefer_cache_error,
            final(self).debug == args.debug,
            final(self).provider == old(self).provider,
            final(self).display == old(self).display,
            final(self).yandex == old(self).yandex,
    {
        if self.cache.is_some() && args.no_cache {
            self.cache = None;
        }
        self.prefer_cache_error = args.prefer_cache_error;
        self.debug = args.debug;
    }

    /// Rejects a cache that is on without an expiration.
    pub fn check(&self) -> (r: Result<(), Error>)
        ensures
            r is Err <==> cache_lacks_expiration(self.cache),
            r matches Err(e) ==> e matches Error::InvalidConfigCheck(m) && m@ == "expected cache.expiration"@,
    {
        if let Some(cache) = &self.cache {
            if cache.enabled {
                if cache.expiration.is_none() {
                    return Err(Error::InvalidConfigCheck("expected cache.expiration".to_owned()));
                }
            }
        }
        Ok(())
    }

    /// The cache in front of the provider: present where the cache section
    /// is there, on, and has an expiration, which becomes its time to live.
    pub fn cache_policy(&self) -> (r: Option<UnQLiteCache>)
        ensures
            r is Some <==> (self.cache matches Some(c) && c.enabled && c.expiration is Some),
            r matches Some(p) ==> p.ttl == self.cache->0.expiration->0
                && p.prefer_cache == self.prefer_cache_error && p.is_idle(),
    {
        match &self.cache {
            Some(c) => {
                if c.enabled {
                    match c.expiration {
                        Some(ttl) => Some(UnQLiteCache::new(ttl, self.prefer_cache_error)),
                        None => None,
                    }
                } else {
                    None
                }
            },
            None => None,
        }
    }
}

} // verus!
