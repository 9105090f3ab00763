//! Weather data: when a cached observation may still be served, and where an
//! observation comes from.
use vstd::prelude::*;

verus! {

/// How long a weather observation is served from the cache, in minutes.
pub const CACHE_MINUTES: i64 = 10;

/// A cached observation made at `updated_at` is served at `now` while fewer than ten
/// whole minutes have passed (whole minutes counted toward zero).
pub open spec fn fresh(updated_at: i64, now: i64) -> bool {
    let age = now - updated_at;
    (if age >= 0 { age / 60 } else { -((-age) / 60) }) < CACHE_MINUTES
}

/// Whether the observation made at `updated_at` may be served at `now`.
pub fn cache_is_fresh(updated_at: i64, now: i64) -> (b: bool)
    ensures
        b == fresh(updated_at, now),
{
    let age: i128 = now as i128 - updated_at as i128;
    let minutes: i128 = if age >= 0 { age / 60 } else { -((-age) / 60) };
    minutes < CACHE_MINUTES as i128
}


/// Where the weather shown comes from.
#[derive(Debug, Clone, Copy, PartialEq, Eq, Structural)]
pub enum WeatherSource {
    /// The cached observation.
    Cached,
    /// A new observation from the weather service; sample data when that fails.
    Fetch,
    /// Sample data.
    Sample,
}

/// Where the weather shown at `now` comes from: the cached observation (made at
/// `cached_at`) while it is fresh, else the weather service when there is an API key,
/// else sample data.
pub open spec fn source_of(cached_at: Option<i64>, now: i64, has_api_key: bool) -> WeatherSource {
    if cached_at matches Some(t) && fresh(t, now) {
        WeatherSource::Cached
    } else if has_api_key {
        WeatherSource::Fetch
    } else {
        WeatherSource::Sample
    }
}

/// Where the weather shown at `now` comes from.
pub fn weather_source(cached_at: Option<i64>, now: i64, has_api_key: bool) -> (r: WeatherSource)
    ensures
        r == source_of(cached_at, now, has_api_key),
{
    if let Some(t) = cached_at {
        if cache_is_fresh(t, now) {
            return WeatherSource::Cached;
        }
    }
    if has_api_key {
        WeatherSource::Fetch
    } else {
        WeatherSource::Sample
    }
}

} // verus!
