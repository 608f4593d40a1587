//! The catalog data model: a lootbox groups items into rarity tiers, each
//! tier carrying a relative draw weight.

use vstd::prelude::*;

verus! {

/// A whole lootbox: a display title and an ordered list of rarity tiers.
/// Tier order is significant: higher indices are treated as rarer by the
/// reservation policy, so catalogs must list tiers rarity-ascending.
#[derive(Debug, PartialEq, Eq, Clone)]
pub struct Lootbox {
    pub title: String,
    pub rarities: Vec<Rarity>,
}

/// One rarity group: a label, a non-negative draw weight, and the items the
/// group can yield. A drawable catalog never holds a tier with no items.
#[derive(Debug, PartialEq, Eq, Clone)]
pub struct Rarity {
    pub label: String,
    pub probability: usize,
    pub items: Vec<Item>,
}

/// A single drawable payload: a title and an opaque URL.
#[derive(Debug, PartialEq, Eq, Clone)]
pub struct Item {
    pub title: String,
    pub url: String,
}

/// Service configuration: where to listen, and the catalog to serve.
#[derive(Debug, PartialEq, Eq, Clone)]
pub struct Configuration {
    pub listen_at: String,
    pub lootbox: Lootbox,
}

/// Commandline arguments: the path of the configuration file.
#[derive(Debug, PartialEq, Eq, Clone)]
pub struct Arguments {
    pub config: String,
}

/// Why a catalog (or the distribution over its weights) cannot be built.
#[derive(Debug, PartialEq, Eq, Clone, Copy)]
pub enum ConstructionError {
    /// The tier list is empty.
    NoTiers,
    /// Some tier's item list is empty.
    EmptyTierItems,
    /// Every tier weight is zero, so no tier is drawable.
    ZeroTotalWeight,
}

/// The weights of a catalog's tiers, in tier order.
pub open spec fn tier_weights(l: Lootbox) -> Seq<usize> {
    l.rarities@.map(|t: int, r: Rarity| r.probability)
}

/// A well-formed catalog: at least one tier, no tier without items, and at
/// least one tier with a positive weight.
pub open spec fn lootbox_wf(l: Lootbox) -> bool {
    &&& l.rarities@.len() > 0
    &&& forall|t: int| 0 <= t < l.rarities@.len() ==> l.rarities@[t].items@.len() > 0
    &&& exists|t: int| 0 <= t < l.rarities@.len() && l.rarities@[t].probability > 0
}

impl Lootbox {
    /// Validating constructor: returns the catalog unchanged when it is
    /// well-formed, and says exactly which invariant failed otherwise.
    pub fn build(title: String, rarities: Vec<Rarity>) -> (r: Result<Lootbox, ConstructionError>)
        ensures
            match r {
                Ok(l) => lootbox_wf(l) && l.title == title && l.rarities == rarities,
                Err(e) => match e {
                    ConstructionError::NoTiers => rarities@.len() == 0,
                    ConstructionError::EmptyTierItems => {
                        &&& rarities@.len() > 0
                        &&& exists|t: int|
                            0 <= t < rarities@.len() && rarities@[t].items@.len() == 0
                    },
                    ConstructionError::ZeroTotalWeight => {
                        &&& rarities@.len() > 0
                        &&& forall|t: int|
                            0 <= t < rarities@.len() ==> rarities@[t].items@.len() > 0
                        &&& forall|t: int|
                            0 <= t < rarities@.len() ==> rarities@[t].probability == 0
                    },
                },
            },
    {
        if rarities.len() == 0 {
            return Err(ConstructionError::NoTiers);
        }
        let mut t: usize = 0;
        while t < rarities.len()
            invariant
                t <= rarities@.len(),
                forall|j: int| 0 <= j < t ==> rarities@[j].items@.len() > 0,
            decreases rarities@.len() - t,
        {
            if rarities[t].items.len() == 0 {
                return Err(ConstructionError::EmptyTierItems);
            }
            t = t + 1;
        }
        let mut any_weight: bool = false;
        let mut t: usize = 0;
        while t < rarities.len()
            invariant
                t <= rarities@.len(),
                any_weight <==> exists|j: int|
                    0 <= j < t && rarities@[j].probability > 0,
            decreases rarities@.len() - t,
        {
            if rarities[t].probability > 0 {
                any_weight = true;
            }
            t = t + 1;
        }
        if !any_weight {
            return Err(ConstructionError::ZeroTotalWeight);
        }
        Ok(Lootbox { title, rarities })
    }

    /// The tiers' weights, in tier order.
    pub fn rarity_weights(&self) -> (r: Vec<usize>)
        ensures
            r@ == tier_weights(*self),
    {
        let mut r: Vec<usize> = Vec::new();
        let mut t: usize = 0;
        while t < self.rarities.len()
            invariant
                t <= self.rarities@.len(),
                r@.len() == t,
                forall|j: int| 0 <= j < t ==> r@[j] == self.rarities@[j].probability,
            decreases self.rarities@.len() - t,
        {
            r.push(self.rarities[t].probability);
            t = t + 1;
        }
        proof {
            assert(r@ =~= tier_weights(*self));
        }
        r
    }
}

} // verus!
