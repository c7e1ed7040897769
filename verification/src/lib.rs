//! Lyrics synchronization and retrieval engine: a playback-position
//! extrapolator, an event-driven lyrics orchestrator, a multi-provider
//! retrieval flow with fallback and retry, schema-tolerant response parsers,
//! retry planning for a resilient HTTP client, and the decision core of a
//! TTL + count-bounded disk cache.

pub mod cache;
pub mod clock;
pub mod common;
pub mod data;
pub mod errors;
pub mod font;
pub mod hashing;
pub mod http_client;
pub mod jsonval;
pub mod lrc;
pub mod manager;
pub mod media;
pub mod netease;
pub mod playback_timer;
pub mod qqmusic;
pub mod service;
pub mod strutil;
pub mod supervisor;
pub mod system;
pub mod window;
