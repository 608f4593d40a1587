//! Weighted random "loot" selection from a configured catalog. A catalog
//! groups items into rarity tiers, each tier carrying a relative integer
//! weight; draws pick a tier in proportion to its weight, then an item
//! uniformly within the tier. A batch of draws may reserve its trailing
//! positions, clamping their tier upward to a minimum rarity index while
//! the remaining draws follow the unmodified distribution.

pub mod data;
pub mod draws;
pub mod sampler;
pub mod schema;
