//! Reading overlaps from the physics engine.
//!
//! The engine keeps, from its last step, which shapes intersect which. The
//! fight asks it pair by pair and keeps the answer as a list of overlaps,
//! which the rest of the crate works on.

use crate::collision::{overlapping, Overlap};
use crate::hitbox::{AttackHitbox, CharacterHitbox};
use vstd::prelude::*;

verus! {

/// The state of the physics engine.
#[verifier::external_type_specification]
#[verifier::external_body]
pub struct ExRapierContext(bevy_rapier2d::plugin::RapierContext);

/// What the engine keeps from its last step: the pairs of shapes that it
/// tracks together, each with its word on whether the two intersect. A shape
/// is named by the bits of its entity. A pair that the engine does not track,
/// or one with a shape that it does not know, is not in the map.
pub uninterp spec fn intersection_pairs(context: bevy_rapier2d::plugin::RapierContext) -> Map<(u64, u64), bool>;

/// Asks the engine whether two shapes intersect, with
/// `RapierContext::intersection_pair`. The shapes are named by the bits of
/// their entities. The call only looks the pair up in what the engine kept
/// from its last step, so its answer is the entry of the pair in
/// `intersection_pairs`, and `None` where there is no entry. Nothing is
/// claimed of what the entries are.
#[verifier::external_body]
fn intersection_pair(
    context: &bevy_rapier2d::plugin::RapierContext,
    shape: u64,
    other: u64,
) -> (answer: Option<bool>)
    ensures
        answer == pair_answer(intersection_pairs(*context), shape, other),
{
    context.intersection_pair(
        bevy::ecs::entity::Entity::from_bits(shape),
        bevy::ecs::entity::Entity::from_bits(other),
    )
}

/// Reads the engine's answer: only `Some(true)` means that the shapes
/// overlap.
pub fn reported(answer: Option<bool>) -> (overlap: bool)
    ensures
        overlap == (answer == Some(true)),
{
    match answer {
        Some(intersecting) => intersecting,
        None => false,
    }
}

/// Whether the engine reports that two shapes intersect: whether its entry
/// for the pair says so. A pair without an entry does not overlap.
pub fn shapes_overlap(
    context: &bevy_rapier2d::plugin::RapierContext,
    shape: u64,
    other: u64,
) -> (overlap: bool)
    ensures
        overlap == engine_reports(intersection_pairs(*context), shape, other),
{
    reported(intersection_pair(context, shape, other))
}

/// Asks the engine about every pair of an attack hitbox and a hurtbox, and
/// lists the pairs that it reports as intersecting, hitbox by hitbox in the
/// order of the registry, and for each hitbox hurtbox by hurtbox.
///
/// The list is exactly `overlaps_among`. So a hitbox and a hurtbox of the
/// registry are in the list if and only if the engine reports that they
/// overlap, and nothing else is in it.
pub fn collect_overlaps(
    context: &bevy_rapier2d::plugin::RapierContext,
    hitboxes: &Vec<AttackHitbox>,
    hurtboxes: &Vec<CharacterHitbox>,
) -> (overlaps: Vec<Overlap>)
    ensures
        overlaps@ == overlaps_among(
            intersection_pairs(*context),
            hitboxes@,
            hurtboxes@,
            hitboxes.len() as int,
        ),
        forall|k: int|
            0 <= k < overlaps.len() ==> is_pair_of(hitboxes@, hurtboxes@, #[trigger] overlaps[k]),
        forall|k: int|
            0 <= k < overlaps.len() ==> engine_reports(
                intersection_pairs(*context),
                (#[trigger] overlaps[k]).hitbox,
                overlaps[k].hurtbox,
            ),
        forall|i: int, j: int|
            0 <= i < hitboxes.len() && 0 <= j < hurtboxes.len() ==> (overlapping(
                overlaps@,
                (#[trigger] hitboxes[i]).id,
                (#[trigger] hurtboxes[j]).id,
            ) <==> engine_reports(intersection_pairs(*context), hitboxes[i].id, hurtboxes[j].id)),
{
    let ghost pairs = intersection_pairs(*context);
    let mut overlaps: Vec<Overlap> = Vec::new();
    let mut i: usize = 0;
    while i < hitboxes.len()
        invariant
            i <= hitboxes.len(),
            pairs == intersection_pairs(*context),
            overlaps@ == overlaps_among(pairs, hitboxes@, hurtboxes@, i as int),
            forall|k: int|
                0 <= k < overlaps.len() ==> is_pair_of(
                    hitboxes@,
                    hurtboxes@,
                    #[trigger] overlaps[k],
                ),
            forall|k: int|
                0 <= k < overlaps.len() ==> engine_reports(
                    pairs,
                    (#[trigger] overlaps[k]).hitbox,
                    overlaps[k].hurtbox,
                ),
            forall|a: int, b: int|
                0 <= a < i && 0 <= b < hurtboxes.len() && engine_reports(
                    pairs,
                    (#[trigger] hitboxes[a]).id,
                    (#[trigger] hurtboxes[b]).id,
                ) ==> overlapping(overlaps@, hitboxes[a].id, hurtboxes[b].id),
        decreases hitboxes.len() - i,
    {
        let ghost before = overlaps@;
        let hitbox = hitboxes[i].id;
        let mut j: usize = 0;
        while j < hurtboxes.len()
            invariant
                j <= hurtboxes.len(),
                i < hitboxes.len(),
                hitbox == hitboxes[i as int].id,
                pairs == intersection_pairs(*context),
                before == overlaps_among(pairs, hitboxes@, hurtboxes@, i as int),
                overlaps@ == before + overlaps_of(pairs, hitbox, hurtboxes@, j as int),
                forall|k: int|
                    0 <= k < overlaps.len() ==> is_pair_of(
                        hitboxes@,
                        hurtboxes@,
                        #[trigger] overlaps[k],
                    ),
                forall|k: int|
                    0 <= k < overlaps.len() ==> engine_reports(
                        pairs,
                        (#[trigger] overlaps[k]).hitbox,
                        overlaps[k].hurtbox,
                    ),
                forall|a: int, b: int|
                    0 <= a < i && 0 <= b < hurtboxes.len() && engine_reports(
                        pairs,
                        (#[trigger] hitboxes[a]).id,
                        (#[trigger] hurtboxes[b]).id,
                    ) ==> overlapping(overlaps@, hitboxes[a].id, hurtboxes[b].id),
                forall|b: int|
                    0 <= b < j && engine_reports(pairs, hitbox, (#[trigger] hurtboxes[b]).id)
                        ==> overlapping(overlaps@, hitbox, hurtboxes[b].id),
            decreases hurtboxes.len() - j,
        {
            let ghost row = overlaps_of(pairs, hitbox, hurtboxes@, j as int);
            let ghost listed = overlaps@;
            let hurtbox = hurtboxes[j].id;
            if shapes_overlap(context, hitbox, hurtbox) {
                let overlap = Overlap { hitbox, hurtbox };
                overlaps.push(overlap);
                proof {
                    assert(overlaps@ =~= before + row.push(overlap));
                    assert(overlaps[overlaps.len() - 1] == overlap);
                    assert(hitboxes[i as int].id == overlap.hitbox && hurtboxes[j as int].id
                        == overlap.hurtbox);
                }
            }
            proof {
                assert forall|o: Overlap| listed.contains(o) implies overlaps@.contains(o) by {
                    let k = choose|k: int| 0 <= k < listed.len() && listed[k] == o;
                    assert(overlaps[k] == o);
                }
            }
            j = j + 1;
        }
        i = i + 1;
    }
    proof {
        assert forall|a: int, b: int|
            0 <= a < hitboxes.len() && 0 <= b < hurtboxes.len() && overlapping(
                overlaps@,
                (#[trigger] hitboxes[a]).id,
                (#[trigger] hurtboxes[b]).id,
            ) implies engine_reports(pairs, hitboxes[a].id, hurtboxes[b].id) by {
            let o = Overlap { hitbox: hitboxes[a].id, hurtbox: hurtboxes[b].id };
            let k = choose|k: int| 0 <= k < overlaps.len() && overlaps[k] == o;
            assert(engine_reports(pairs, overlaps[k].hitbox, overlaps[k].hurtbox));
        }
    }
    overlaps
}

/// The engine's answer for a pair of shapes, read off what it keeps.
pub open spec fn pair_answer(pairs: Map<(u64, u64), bool>, shape: u64, other: u64) -> Option<
    bool,
> {
    if pairs.dom().contains((shape, other)) {
        Some(pairs[(shape, other)])
    } else {
        None
    }
}

/// The engine's word is that the two shapes overlap.
pub open spec fn engine_reports(pairs: Map<(u64, u64), bool>, shape: u64, other: u64) -> bool {
    pair_answer(pairs, shape, other) == Some(true)
}

/// The overlap pairs a hitbox of `hitboxes` with a hurtbox of `hurtboxes`.
pub open spec fn is_pair_of(
    hitboxes: Seq<AttackHitbox>,
    hurtboxes: Seq<CharacterHitbox>,
    overlap: Overlap,
) -> bool {
    exists|i: int, j: int|
        0 <= i < hitboxes.len() && 0 <= j < hurtboxes.len() && (#[trigger] hitboxes[i]).id
            == overlap.hitbox && (#[trigger] hurtboxes[j]).id == overlap.hurtbox
}

/// The overlaps of one hitbox with the first `n` hurtboxes, in their order.
pub open spec fn overlaps_of(
    pairs: Map<(u64, u64), bool>,
    hitbox: u64,
    hurtboxes: Seq<CharacterHitbox>,
    n: int,
) -> Seq<Overlap>
    decreases n,
{
    if n <= 0 {
        Seq::empty()
    } else {
        let earlier = overlaps_of(pairs, hitbox, hurtboxes, n - 1);
        if engine_reports(pairs, hitbox, hurtboxes[n - 1].id) {
            earlier.push(Overlap { hitbox, hurtbox: hurtboxes[n - 1].id })
        } else {
            earlier
        }
    }
}

/// The overlaps of the first `n` hitboxes with all hurtboxes: hitbox by
/// hitbox, and for each hitbox hurtbox by hurtbox.
pub open spec fn overlaps_among(
    pairs: Map<(u64, u64), bool>,
    hitboxes: Seq<AttackHitbox>,
    hurtboxes: Seq<CharacterHitbox>,
    n: int,
) -> Seq<Overlap>
    decreases n,
{
    if n <= 0 {
        Seq::empty()
    } else {
        overlaps_among(pairs, hitboxes, hurtboxes, n - 1) + overlaps_of(
            pairs,
            hitboxes[n - 1].id,
            hurtboxes,
            hurtboxes.len() as int,
        )
    }
}

} // verus!
