//! Crawl-and-snapshot core of a news-index crawler: the traversal state
//! machine, the append-only front-page membership store and the bridge that
//! carries query results to the service boundary.

pub mod api;
pub mod crawl_cycle;
pub mod decimal;
pub mod extract;
pub mod hackernews_core;
pub mod hackernews_proxy_proto;
pub mod hackernews_scrapper;
pub mod posts_storage;
mod sequence;
pub mod snapshot_laws;
