//! The records that resolution enriches.

use vstd::prelude::*;

verus! {

/// One record to enrich. The descriptive fields pass through resolution
/// unmodified; `image` is the sole field a resolution may write.
#[derive(Debug, PartialEq, Eq)]
#[verifier::ext_equal]
pub struct DataEntry {
    pub name: String,
    pub gender: String,
    pub race: String,
    pub region: String,
    pub combat_level: i32,
    pub release_date: i32,
    pub image: String,
}

/// The collection: an ordered sequence of entities under a single named
/// grouping. Resolution preserves the order and never adds or removes an
/// entity.
#[derive(Debug, PartialEq, Eq)]
pub struct DataList {
    pub npcs: Vec<DataEntry>,
}

} // verus!
