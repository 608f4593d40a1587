//! The reservation policy and the draw procedures of the three endpoints.
//!
//! A batch of `count` draws is produced left to right. Position `i` is
//! reserved precisely when `count - i <= reserved_count`, so reservation
//! covers the trailing `reserved_count` positions. A reserved position takes
//! the unconstrained weighted draw and clamps it upward to the minimum
//! rarity index; it never resamples. Unreserved positions follow the
//! unmodified sampler distribution.

use vstd::prelude::*;

use rand::rngs::ThreadRng;

use crate::data::{Lootbox, tier_weights};
use crate::sampler::{State, uniform_index};
use crate::schema::{
    FancyApiQuery, FancyApiResponse, FancyApiResponseFrame, PolicyError, SimpleApiQuery,
    SimpleApiResponse,
};

verus! {

/// Whether position `i` of a batch of `count` draws, `reserved_count` of
/// them reserved, is one of the reserved trailing positions.
pub open spec fn reserved_at(count: int, reserved_count: int, i: int) -> bool {
    count - i <= reserved_count
}

/// The resolved tier index of a reserved draw: the unconstrained draw,
/// clamped upward to the minimum rarity index.
pub open spec fn clamp_spec(draw: int, min: int) -> int {
    if draw >= min {
        draw
    } else {
        min
    }
}

/// A frame's visible fields are those of item `j` of tier `t` of the catalog.
pub open spec fn frame_matches(l: Lootbox, f: FancyApiResponseFrame, t: int, j: int) -> bool {
    &&& 0 <= t < l.rarities@.len()
    &&& 0 <= j < l.rarities@[t].items@.len()
    &&& f.rarity@ == l.rarities@[t].label@
    &&& f.title@ == l.rarities@[t].items@[j].title@
    &&& f.url@ == l.rarities@[t].items@[j].url@
}

/// The tiers a draw can resolve to. An unreserved draw only ever lands on a
/// tier of positive weight. A reserved draw lands at or above the minimum
/// index, and is either a genuine weighted draw or the minimum itself, the
/// clamp's one fixed target.
pub open spec fn tier_admissible(l: Lootbox, t: int, reserved: bool, min_tier: int) -> bool {
    if reserved {
        &&& min_tier <= t < l.rarities@.len()
        &&& (tier_weights(l)[t] > 0 || t == min_tier)
    } else {
        &&& 0 <= t < l.rarities@.len()
        &&& tier_weights(l)[t] > 0
    }
}

/// A frame that one draw against catalog `l` can produce.
pub open spec fn frame_drawn(l: Lootbox, f: FancyApiResponseFrame, reserved: bool, min_tier: int) -> bool {
    &&& f.reserved == reserved
    &&& exists|t: int, j: int|
        frame_matches(l, f, t, j) && tier_admissible(l, t, reserved, min_tier)
}

/// A URL that an unconstrained draw against catalog `l` can yield: the URL of
/// some item of some positive-weight tier.
pub open spec fn url_drawn(l: Lootbox, u: Seq<char>) -> bool {
    exists|t: int, j: int|
        {
            &&& 0 <= t < l.rarities@.len()
            &&& 0 <= j < l.rarities@[t].items@.len()
            &&& tier_weights(l)[t] > 0
            &&& u == l.rarities@[t].items@[j].url@
        }
}

/// Reservation clamps, it never resamples: when the unconstrained draw
/// already lands at or above the minimum tier, the resolved index is exactly
/// that draw, untouched.
pub proof fn lemma_reservation_clamps_not_resamples(draw: int, min: int)
    requires
        draw >= min,
    ensures
        clamp_spec(draw, min) == draw,
{
}

/// The clamp never moves a draw below the minimum nor downward, and resolves
/// to either the draw itself or the minimum.
pub proof fn lemma_clamp_bounds(draw: int, min: int)
    ensures
        clamp_spec(draw, min) >= min,
        clamp_spec(draw, min) >= draw,
        clamp_spec(draw, min) == draw || clamp_spec(draw, min) == min,
{
}

/// Reservation applies exactly to the trailing `reserved_count` positions:
/// position `i` is reserved precisely when `i >= count - reserved_count`.
pub proof fn lemma_trailing_positions_reserved(count: int, reserved_count: int, i: int)
    ensures
        reserved_at(count, reserved_count, i) <==> i >= count - reserved_count,
{
}

/// The tier index one position resolves to: the unconstrained draw for an
/// unreserved position, the upward-clamped draw for a reserved one.
pub fn resolve_tier_index(draw: usize, reserved: bool, min_reserved_tier: usize) -> (r: usize)
    ensures
        r as int == if reserved {
            clamp_spec(draw as int, min_reserved_tier as int)
        } else {
            draw as int
        },
{
    if reserved && draw < min_reserved_tier {
        min_reserved_tier
    } else {
        draw
    }
}

/// One draw: a weighted tier draw, clamped when reserved, then a uniform
/// item pick within the resolved tier.
pub fn draw_frame(state: &State, reserved: bool, min_tier: usize, rng: &mut ThreadRng) -> (f:
    FancyApiResponseFrame)
    requires
        state.wf(),
        min_tier < state.lootbox.rarities@.len(),
    ensures
        frame_drawn(state.lootbox, f, reserved, min_tier as int),
{
    let draw = state.distribution.draw(rng);
    let t = resolve_tier_index(draw, reserved, min_tier);
    let rarity = &state.lootbox.rarities[t];
    let j = uniform_index(rarity.items.len(), rng);
    let item = &rarity.items[j];
    let f = FancyApiResponseFrame {
        rarity: rarity.label.clone(),
        reserved,
        title: item.title.clone(),
        url: item.url.clone(),
    };
    proof {
        assert(frame_matches(state.lootbox, f, t as int, j as int));
        assert(tier_admissible(state.lootbox, t as int, reserved, min_tier as int));
    }
    f
}

/// The reserved batch of `GET /fancy`: validates the reservation request,
/// then draws `count` frames, the trailing `reserved_count` of them clamped
/// to at least tier `reserved_rarity`.
pub fn draw_fancy(
    state: &State,
    count: usize,
    reserved_count: usize,
    reserved_rarity: usize,
    rng: &mut ThreadRng,
) -> (r: Result<Vec<FancyApiResponseFrame>, PolicyError>)
    requires
        state.wf(),
    ensures
        match r {
            Ok(frames) => {
                &&& reserved_count <= count
                &&& (reserved_rarity as int) < state.lootbox.rarities@.len()
                &&& frames@.len() == count
                &&& forall|i: int|
                    0 <= i < count ==> frames@[i].reserved == reserved_at(
                        count as int,
                        reserved_count as int,
                        i,
                    )
                &&& forall|i: int|
                    0 <= i < count ==> frame_drawn(
                        state.lootbox,
                        frames@[i],
                        reserved_at(count as int, reserved_count as int, i),
                        reserved_rarity as int,
                    )
            },
            Err(e) => match e {
                PolicyError::ReservedCountExceedsBatch => reserved_count > count,
                PolicyError::RarityIndexOutOfRange => {
                    &&& reserved_count <= count
                    &&& (reserved_rarity as int) >= state.lootbox.rarities@.len()
                },
            },
        },
{
    if reserved_count > count {
        return Err(PolicyError::ReservedCountExceedsBatch);
    }
    if reserved_rarity >= state.lootbox.rarities.len() {
        return Err(PolicyError::RarityIndexOutOfRange);
    }
    let mut frames: Vec<FancyApiResponseFrame> = Vec::new();
    let mut i: usize = 0;
    while i < count
        invariant
            state.wf(),
            i <= count,
            reserved_count <= count,
            (reserved_rarity as int) < state.lootbox.rarities@.len(),
            frames@.len() == i,
            forall|k: int|
                0 <= k < i ==> frame_drawn(
                    state.lootbox,
                    frames@[k],
                    reserved_at(count as int, reserved_count as int, k),
                    reserved_rarity as int,
                ),
        decreases count - i,
    {
        let reserved = count - i <= reserved_count;
        let f = draw_frame(state, reserved, reserved_rarity, rng);
        frames.push(f);
        i = i + 1;
    }
    Ok(frames)
}

/// The plain batch of `GET /api`: `count` unconstrained draws, reduced to the
/// drawn items' URLs. A thin caller of the reserved-batch machinery with no
/// reserved positions, so both modes share one distribution.
pub fn draw_simple(state: &State, count: usize, rng: &mut ThreadRng) -> (r: Vec<String>)
    requires
        state.wf(),
    ensures
        r@.len() == count,
        forall|i: int| 0 <= i < count ==> url_drawn(state.lootbox, r@[i]@),
{
    let frames = match draw_fancy(state, count, 0, 0, rng) {
        Ok(fs) => fs,
        Err(_) => {
            proof {
                assert(false);
            }
            Vec::new()
        },
    };
    let mut urls: Vec<String> = Vec::new();
    let mut i: usize = 0;
    while i < frames.len()
        invariant
            i <= frames@.len(),
            frames@.len() == count,
            urls@.len() == i,
            forall|k: int|
                0 <= k < count ==> frame_drawn(
                    state.lootbox,
                    frames@[k],
                    reserved_at(count as int, 0, k),
                    0,
                ),
            forall|k: int| 0 <= k < i ==> url_drawn(state.lootbox, urls@[k]@),
        decreases frames@.len() - i,
    {
        urls.push(frames[i].url.clone());
        proof {
            let (t, j) = choose|t: int, j: int|
                frame_matches(state.lootbox, frames@[i as int], t, j) && tier_admissible(
                    state.lootbox,
                    t,
                    reserved_at(count as int, 0, i as int),
                    0,
                );
            assert(url_drawn(state.lootbox, urls@[i as int]@));
        }
        i = i + 1;
    }
    urls
}

/// The single draw of `GET /`: a batch of one with nothing reserved.
pub fn draw_single(state: &State, rng: &mut ThreadRng) -> (f: FancyApiResponseFrame)
    requires
        state.wf(),
    ensures
        f.reserved == false,
        frame_drawn(state.lootbox, f, false, 0),
{
    let mut frames = match draw_fancy(state, 1, 0, 0, rng) {
        Ok(fs) => fs,
        Err(_) => {
            proof {
                assert(false);
            }
            Vec::new()
        },
    };
    frames.remove(0)
}

/// The batch size a query asks for; one draw when it names none.
pub open spec fn requested_count(q: FancyApiQuery) -> int {
    match q.count {
        Some(c) => c as int,
        None => 1,
    }
}

/// The reserved-draw count a query asks for; none when it names none.
pub open spec fn requested_reserved_count(q: FancyApiQuery) -> int {
    match q.reserved_count {
        Some(c) => c as int,
        None => 0,
    }
}

/// The minimum reserved rarity index a query asks for; the first tier when
/// it names none.
pub open spec fn requested_reserved_rarity(q: FancyApiQuery) -> int {
    match q.reserved_rarity {
        Some(c) => c as int,
        None => 0,
    }
}

/// The computational part of `GET /api`: applies the default batch size of
/// one and draws the batch. The defaults can never fail validation.
pub fn api_response(state: &State, query: &SimpleApiQuery, rng: &mut ThreadRng) -> (r:
    SimpleApiResponse)
    requires
        state.wf(),
    ensures
        r.title@ == state.lootbox.title@,
        r.result@.len() == match query.count {
            Some(c) => c as int,
            None => 1,
        },
        forall|i: int| 0 <= i < r.result@.len() ==> url_drawn(state.lootbox, r.result@[i]@),
{
    let count = match query.count {
        Some(c) => c,
        None => 1,
    };
    let result = draw_simple(state, count, rng);
    SimpleApiResponse { title: state.lootbox.title.clone(), result }
}

/// The computational part of `GET /fancy`: applies the defaults, validates
/// the reservation parameters, and draws the reserved batch. The defaults
/// themselves can never trigger a validation error.
pub fn fancy_response(state: &State, query: &FancyApiQuery, rng: &mut ThreadRng) -> (r: Result<
    FancyApiResponse,
    PolicyError,
>)
    requires
        state.wf(),
    ensures
        match r {
            Ok(resp) => {
                &&& requested_reserved_count(*query) <= requested_count(*query)
                &&& requested_reserved_rarity(*query) < state.lootbox.rarities@.len()
                &&& resp.title@ == state.lootbox.title@
                &&& resp.result@.len() == requested_count(*query)
                &&& forall|i: int|
                    0 <= i < resp.result@.len() ==> frame_drawn(
                        state.lootbox,
                        resp.result@[i],
                        reserved_at(
                            requested_count(*query),
                            requested_reserved_count(*query),
                            i,
                        ),
                        requested_reserved_rarity(*query),
                    )
            },
            Err(e) => match e {
                PolicyError::ReservedCountExceedsBatch => requested_reserved_count(*query)
                    > requested_count(*query),
                PolicyError::RarityIndexOutOfRange => {
                    &&& requested_reserved_count(*query) <= requested_count(*query)
                    &&& requested_reserved_rarity(*query) >= state.lootbox.rarities@.len()
                },
            },
        },
{
    let count = match query.count {
        Some(c) => c,
        None => 1,
    };
    let reserved_count = match query.reserved_count {
        Some(c) => c,
        None => 0,
    };
    let reserved_rarity = match query.reserved_rarity {
        Some(c) => c,
        None => 0,
    };
    match draw_fancy(state, count, reserved_count, reserved_rarity, rng) {
        Ok(frames) => Ok(
            FancyApiResponse { title: state.lootbox.title.clone(), result: frames },
        ),
        Err(e) => Err(e),
    }
}

} // verus!
