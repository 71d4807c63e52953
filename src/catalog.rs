use crate::entity_type::{EntityType, ENTITY_TYPE_COUNT, MAX_BOAT_LEVEL, MAX_RADIUS};
use crate::kind::EntityKind;
use vstd::prelude::*;

verus! {

/// No radius exceeds `MAX_RADIUS`, no length or width exceeds two kilometres, and every boat's level lies between one and
/// `MAX_BOAT_LEVEL`.
#[verifier::rlimit(40)]
pub proof fn lemma_catalog_bounds(t: EntityType)
    ensures
        ({
            let d = t.spec_data();
            &&& d.radius <= MAX_RADIUS
            &&& d.length <= 2_000_000 && d.width <= 2_000_000
            &&& d.kind == EntityKind::Boat ==> 1 <= d.level <= MAX_BOAT_LEVEL
        }),
        0 <= t.ordinal() < ENTITY_TYPE_COUNT,
{
}

/// Every ordinal below `ENTITY_TYPE_COUNT` belongs to a type.
#[verifier::rlimit(40)]
pub proof fn lemma_ordinal_onto(n: u8)
    requires
        n < ENTITY_TYPE_COUNT,
    ensures
        EntityType::spec_from_u8(n) is Some,
        EntityType::spec_from_u8(n).unwrap().ordinal() == n as int,
{
}

/// Every type's radius is half the diagonal of its length by width, rounded down.
#[verifier::rlimit(40)]
pub proof fn lemma_radius_is_half_diagonal(t: EntityType)
    ensures
        ({
            let d = t.spec_data();
            let diag = d.length * d.length + d.width * d.width;
            &&& 4 * d.radius * d.radius <= diag
            &&& diag < 4 * (d.radius + 1) * (d.radius + 1)
        }),
{
    let d = t.spec_data();
    assert({
        let diag = d.length * d.length + d.width * d.width;
        &&& 4 * d.radius * d.radius <= diag
        &&& diag < 4 * (d.radius + 1) * (d.radius + 1)
    }) by (nonlinear_arith)
        requires
            d == t.spec_data(),
    ;
}

} // verus!
