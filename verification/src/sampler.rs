//! The weighted tier sampler: an O(1)-per-draw discrete distribution over
//! tier indices, proportional to the catalog's integer weights, built on the
//! alias method of the `rand_distr` crate. All randomness comes from a
//! caller-supplied generator, never from hidden state of this module.

use vstd::prelude::*;

use rand::RngExt;
use rand::rngs::ThreadRng;
use rand_distr::Distribution;
use rand_distr::weighted::WeightedAliasIndex;

use crate::data::{ConstructionError, Lootbox, lootbox_wf, tier_weights};

verus! {

#[verifier::external_type_specification]
#[verifier::external_body]
pub struct ExThreadRng(ThreadRng);

/// Carries the alias-method distribution of `rand_distr`, whose own type the
/// verifier does not take; opaque to the verifier.
#[verifier::external_body]
pub struct AliasIndex {
    dist: WeightedAliasIndex<usize>,
}

/// The weights an alias distribution was built from, in order.
pub uninterp spec fn dist_weights(d: AliasIndex) -> Seq<usize>;

/// Relies on rand_distr's WeightedAliasIndex::new: construction succeeds when
/// there is at least one weight, no more than u32::MAX of them, each weight is
/// at most usize::MAX divided by their number, and some weight is positive;
/// the result then distributes over exactly the given weights.
#[verifier::external_body]
fn alias_index_new(weights: &Vec<usize>) -> (d: AliasIndex)
    requires
        0 < weights@.len() <= u32::MAX as int,
        forall|i: int|
            0 <= i < weights@.len()
                ==> weights@[i] as int <= usize::MAX as int / weights@.len() as int,
        exists|i: int| 0 <= i < weights@.len() && weights@[i] > 0,
    ensures
        dist_weights(d) == weights@,
{
    AliasIndex { dist: WeightedAliasIndex::new(weights.clone()).unwrap() }
}

/// Relies on the Distribution impl of rand_distr's WeightedAliasIndex: a
/// sample is the index of one of the weights, each index drawn with
/// probability proportional to its weight, so an index whose weight is zero
/// never comes back.
#[verifier::external_body]
fn alias_index_sample(d: &AliasIndex, rng: &mut ThreadRng) -> (i: usize)
    ensures
        i < dist_weights(*d).len(),
        dist_weights(*d)[i as int] > 0,
{
    d.dist.sample(rng)
}

/// Relies on rand's RngExt::random_range: a uniform draw over a non-empty
/// range of indices stays within that range.
#[verifier::external_body]
pub(crate) fn uniform_index(len: usize, rng: &mut ThreadRng) -> (i: usize)
    requires
        len > 0,
    ensures
        i < len,
{
    rng.random_range(0..len)
}

/// An immutable sampler over tier indices. Once constructed it is read-only;
/// every draw takes the random generator as an explicit parameter.
pub struct Sampler {
    dist: AliasIndex,
    weights: Vec<usize>,
}

impl Sampler {
    /// The weights this sampler draws over, in tier order.
    pub closed spec fn weight_seq(self) -> Seq<usize> {
        self.weights@
    }

    /// Well-formed: the alias distribution was built from exactly the kept
    /// weights, there is at least one of them, and one is positive.
    pub closed spec fn wf(self) -> bool {
        &&& dist_weights(self.dist) == self.weights@
        &&& 0 < self.weights@.len() <= u32::MAX as int
        &&& exists|i: int| 0 <= i < self.weights@.len() && self.weights@[i] > 0
    }

    /// Builds the distribution from the tier weights. Fails with `NoTiers`
    /// when there are none and with `ZeroTotalWeight` when all are zero.
    pub fn from_weights(weights: Vec<usize>) -> (r: Result<Sampler, ConstructionError>)
        requires
            weights@.len() <= u32::MAX as int,
            forall|i: int|
                0 <= i < weights@.len()
                    ==> weights@[i] as int <= usize::MAX as int / weights@.len() as int,
        ensures
            match r {
                Ok(s) => s.wf() && s.weight_seq() == weights@,
                Err(e) => match e {
                    ConstructionError::NoTiers => weights@.len() == 0,
                    ConstructionError::EmptyTierItems => false,
                    ConstructionError::ZeroTotalWeight => {
                        &&& weights@.len() > 0
                        &&& forall|i: int| 0 <= i < weights@.len() ==> weights@[i] == 0
                    },
                },
            },
    {
        if weights.len() == 0 {
            return Err(ConstructionError::NoTiers);
        }
        let mut any_weight: bool = false;
        let mut i: usize = 0;
        while i < weights.len()
            invariant
                i <= weights@.len(),
                any_weight <==> exists|j: int| 0 <= j < i && weights@[j] > 0,
            decreases weights@.len() - i,
        {
            if weights[i] > 0 {
                any_weight = true;
            }
            i = i + 1;
        }
        if !any_weight {
            return Err(ConstructionError::ZeroTotalWeight);
        }
        let dist = alias_index_new(&weights);
        Ok(Sampler { dist, weights })
    }

    /// One unconstrained weighted draw: a tier index whose weight is positive.
    pub fn draw(&self, rng: &mut ThreadRng) -> (i: usize)
        requires
            self.wf(),
        ensures
            i < self.weight_seq().len(),
            self.weight_seq()[i as int] > 0,
    {
        alias_index_sample(&self.dist, rng)
    }
}

/// Shared application state: the catalog together with the sampler derived
/// once from its tier weights, immutable for the process lifetime.
pub struct State {
    pub lootbox: Lootbox,
    pub distribution: Sampler,
}

impl State {
    /// Well-formed: a valid catalog, and a sampler over exactly its weights.
    pub open spec fn wf(self) -> bool {
        &&& lootbox_wf(self.lootbox)
        &&& self.distribution.wf()
        &&& self.distribution.weight_seq() == tier_weights(self.lootbox)
    }

    /// Validates the catalog and derives its sampler. Fails exactly as
    /// `Lootbox::build` does on an invalid catalog.
    pub fn new(lootbox: Lootbox) -> (r: Result<State, ConstructionError>)
        requires
            lootbox.rarities@.len() <= u32::MAX as int,
            forall|t: int|
                0 <= t < lootbox.rarities@.len()
                    ==> lootbox.rarities@[t].probability as int
                        <= usize::MAX as int / lootbox.rarities@.len() as int,
        ensures
            match r {
                Ok(st) => st.wf() && st.lootbox == lootbox,
                Err(e) => match e {
                    ConstructionError::NoTiers => lootbox.rarities@.len() == 0,
                    ConstructionError::EmptyTierItems => {
                        &&& lootbox.rarities@.len() > 0
                        &&& exists|t: int|
                            0 <= t < lootbox.rarities@.len()
                                && lootbox.rarities@[t].items@.len() == 0
                    },
                    ConstructionError::ZeroTotalWeight => {
                        &&& lootbox.rarities@.len() > 0
                        &&& forall|t: int|
                            0 <= t < lootbox.rarities@.len()
                                ==> lootbox.rarities@[t].items@.len() > 0
                        &&& forall|t: int|
                            0 <= t < lootbox.rarities@.len()
                                ==> lootbox.rarities@[t].probability == 0
                    },
                },
            },
    {
        let Lootbox { title, rarities } = lootbox;
        let validated = match Lootbox::build(title, rarities) {
            Ok(l) => l,
            Err(e) => {
                return Err(e);
            },
        };
        let weights = validated.rarity_weights();
        let ghost w = weights@;
        let sampler = match Sampler::from_weights(weights) {
            Ok(s) => s,
            Err(e) => {
                proof {
                    let t = choose|t: int|
                        0 <= t < validated.rarities@.len()
                            && validated.rarities@[t].probability > 0;
                    assert(w[t] == validated.rarities@[t].probability);
                    assert(false);
                }
                return Err(e);
            },
        };
        Ok(State { lootbox: validated, distribution: sampler })
    }
}

} // verus!
