//! Verified core of a translation proxy with a monitoring dashboard:
//! upstream load balancing with failover, a translation cache, language
//! detection, request planning for the dashboard API and configuration
//! handling.

pub mod api;
pub mod assets;
pub mod balancing_laws;
pub mod cache;
pub mod cache_laws;
pub mod clock;
pub mod config;
pub mod db;
pub mod lang;
pub mod lang_laws;
pub mod proxy;
pub mod schema;
pub mod state;
pub mod text;
pub mod upstream;
