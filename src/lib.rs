//! Symbol-cache generation: the verified core of a memoizing symcache service.
pub mod cache;
pub mod error;
pub mod objects;
pub mod symcaches;
pub mod types;
