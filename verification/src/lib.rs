//! A time-to-live (TTL) memoization cache.
//!
//! The cache maps integer keys to string values, each stored with an expiry
//! timestamp. A stored value is returned as a hit only while the clock has not
//! reached its expiry; afterwards the key counts as absent and the next
//! request triggers a fresh computation. A per-key in-flight marker keeps
//! concurrent requesters of the same missing key from starting more than one
//! computation ("single-flight").
//!
//! Time is an explicit parameter: every operation that depends on the clock
//! takes `now` in abstract time units, so a caller injects whatever time
//! source it has, and tests advance time by passing larger values.

pub mod cache;
pub mod render;

pub use cache::CacheEntry;
pub use cache::CacheError;
pub use cache::Decision;
pub use cache::TtlCache;
pub use render::data_for_id;
