//! Enrichment of named entities with image URLs resolved from a wiki-style
//! content source.
//!
//! The crate verifies the logic of a two-stage resolution protocol: a name is
//! encoded into a URL-safe token, a predictable direct asset URL is probed
//! first, and on a miss the entity's wiki page is scraped for an infobox image
//! link, which is rewritten into a direct asset URL. A small state machine
//! drives the two attempts for one entity, and a batch step applies finished
//! resolutions to a whole collection, in any completion order, without
//! disturbing entity order or any field other than `image`.

pub mod batch;
pub mod encode;
pub mod entity;
pub mod resolve;
pub mod scrape;
