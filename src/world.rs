use crate::entity::{distance_squared, distance_squared_of, Entity, Guidance, Position, Transform};
use crate::entity_type::{EntityData, EntityType};
use crate::kind::{EntityKind, EntitySubKind};
use crate::random::random_below;
use crate::terrain::{Terrain, MAX_TERRAIN_SIZE, SCALE};
use vstd::prelude::*;

verus! {

/// A spawn threshold of one, in millionths; thresholds are never below it.
pub const THRESHOLD_ONE: u64 = 1_000_000;

/// The largest spawn threshold, in millionths: a million times one. Beyond it the
/// squared distances that `can_spawn` compares would not fit in 128 bits.
pub const MAX_THRESHOLD: u64 = 1_000_000_000_000;

/// The largest world radius, in millimetres: every point of the world must fit in a
/// `Position`.
pub const MAX_WORLD_RADIUS: u32 = 2_147_483_647;

/// Square metres of world per crate.
pub const CRATE_AREA: u64 = 30_000;

/// Square metres of world per oil platform or headquarters.
pub const OBSTACLE_AREA: u64 = 1_000_000;

/// Square metres of world per tree.
pub const VEGETATION_AREA: u64 = 100_000;

/// The state of one arena: its size, its terrain and every live entity.
///
/// The entities are held in the order they were added, and each one's `id` is its
/// place in that order.
pub struct World {
    pub radius: u32,
    pub terrain: Terrain,
    pub entities: Vec<Entity>,
}

impl EntityData {
    /// Whether this type stands on land rather than on water.
    pub open spec fn spec_is_land_based(&self) -> bool {
        self.sub_kind == EntitySubKind::Tank || self.sub_kind == EntitySubKind::Tree
    }

    /// Whether this type stands on land rather than on water.
    pub fn is_land_based(&self) -> (r: bool)
        ensures
            r == self.spec_is_land_based(),
    {
        self.sub_kind == EntitySubKind::Tank || self.sub_kind == EntitySubKind::Tree
    }
}

/// Whether an entity is a boat.
pub open spec fn is_boat(e: Entity) -> bool {
    e.spec_data().kind == EntityKind::Boat
}

/// Whether the circles of two entities touch or overlap.
pub open spec fn collides(a: Entity, b: Entity) -> bool {
    let r = a.spec_data().radius + b.spec_data().radius;
    distance_squared(a.transform.position, b.transform.position) <= r * r
}

/// How much room, in millionths of the touching distance, `e` must keep from
/// `other` when spawning with `threshold`: the full threshold from boats above
/// level two when `e` is a boat, else half of it but no less than one.
pub open spec fn room_factor(e: Entity, other: Entity, threshold: int) -> int {
    if is_boat(e) && is_boat(other) && other.spec_data().level > 2 {
        threshold
    } else if threshold / 2 >= THRESHOLD_ONE {
        threshold / 2
    } else {
        THRESHOLD_ONE as int
    }
}

/// Whether `other` keeps `e` from spawning with `threshold`: it is not a collectible
/// and lies within the room that `e` must keep from it.
pub open spec fn blocks(e: Entity, other: Entity, threshold: int) -> bool {
    let safe = (e.spec_data().radius + other.spec_data().radius) * room_factor(e, other, threshold);
    let one = THRESHOLD_ONE as int;
    &&& other.spec_data().kind != EntityKind::Collectible
    &&& distance_squared(e.transform.position, other.transform.position) * (one * one) <= safe * safe
}

/// Where a placement search stands: the radius to draw the next point within (in
/// millimetres), the safety threshold to test it with (in millionths), and how many
/// attempts were made.
#[derive(Clone, Copy, Debug, PartialEq, Eq, Structural)]
pub struct SpawnSearch {
    pub radius: u64,
    pub threshold: u64,
    pub attempts: u32,
}

/// The search before any attempt: the initial radius (at least one) and a threshold
/// of six.
pub open spec fn first_search(initial_radius: u32) -> SpawnSearch {
    SpawnSearch {
        radius: if initial_radius >= 1 {
            initial_radius as u64
        } else {
            1
        },
        threshold: (6 * THRESHOLD_ONE) as u64,
        attempts: 0,
    }
}

/// The search after one more attempt: the radius grows by a tenth, up to `limit`, and
/// the threshold becomes 0.05 plus 0.95 of itself (rounded up), which keeps it above
/// one.
pub open spec fn next_search(s: SpawnSearch, limit: int) -> SpawnSearch {
    SpawnSearch {
        radius: if s.radius * 11 / 10 < limit {
            (s.radius * 11 / 10) as u64
        } else {
            limit as u64
        },
        threshold: (50_000 + (s.threshold * 95 + 99) / 100) as u64,
        attempts: (s.attempts + 1) as u32,
    }
}

/// The search after `k` attempts.
pub open spec fn search_at(initial_radius: u32, limit: int, k: nat) -> SpawnSearch
    decreases k,
{
    if k == 0 {
        first_search(initial_radius)
    } else {
        next_search(search_at(initial_radius, limit, (k - 1) as nat), limit)
    }
}

/// `b` to the power `k`.
pub open spec fn pow(b: int, k: nat) -> int
    decreases k,
{
    if k == 0 {
        1
    } else {
        b * pow(b, (k - 1) as nat)
    }
}

/// For an initial radius between one and `limit`, the search radius after `k`
/// attempts is at most `limit` and at most the initial radius times 1.1 to the `k`.
pub proof fn lemma_search_radius_bound(initial_radius: u32, limit: int, k: nat)
    requires
        1 <= initial_radius <= limit <= 0x1_0000_0000,
    ensures
        search_at(initial_radius, limit, k).radius <= limit,
        search_at(initial_radius, limit, k).radius * pow(10, k) <= initial_radius * pow(11, k),
    decreases k,
{
    if k > 0 {
        let j = (k - 1) as nat;
        lemma_search_radius_bound(initial_radius, limit, j);
        let prev = search_at(initial_radius, limit, j).radius as int;
        let next = search_at(initial_radius, limit, k).radius as int;
        let p10 = pow(10, j);
        let p11 = pow(11, j);
        assert(p10 >= 0) by {
            lemma_pow_nonneg(10, j);
        }
        assert(next * 10 <= prev * 11);
        assert(next * 10 * p10 <= prev * 11 * p10) by (nonlinear_arith)
            requires
                next * 10 <= prev * 11,
                p10 >= 0,
        ;
        assert(prev * 11 * p10 <= initial_radius * 11 * p11) by (nonlinear_arith)
            requires
                prev * p10 <= initial_radius * p11,
        ;
        assert(next * pow(10, k) == next * 10 * p10) by (nonlinear_arith)
            requires
                pow(10, k) == 10 * p10,
        ;
        assert(initial_radius * pow(11, k) == initial_radius * 11 * p11) by (nonlinear_arith)
            requires
                pow(11, k) == 11 * p11,
        ;
    }
}

proof fn lemma_pow_nonneg(b: int, k: nat)
    requires
        b >= 0,
    ensures
        pow(b, k) >= 0,
    decreases k,
{
    if k > 0 {
        lemma_pow_nonneg(b, (k - 1) as nat);
        assert(b * pow(b, (k - 1) as nat) >= 0) by (nonlinear_arith)
            requires
                b >= 0,
                pow(b, (k - 1) as nat) >= 0,
        ;
    }
}

/// A search whose numbers stay where the arithmetic of an attempt is safe.
pub open spec fn search_in_range(s: SpawnSearch) -> bool {
    &&& s.radius <= 0x1_0000_0000
    &&& THRESHOLD_ONE <= s.threshold <= 6 * THRESHOLD_ONE
}

/// `e` moved by `(dx, dy)` from `center` and turned to `direction`; it stays where it
/// was when the new point does not fit in a position.
pub open spec fn moved(e: Entity, center: Position, dx: int, dy: int, direction: u16) -> Entity {
    let x = center.x + dx;
    let y = center.y + dy;
    let p = if i32::MIN <= x <= i32::MAX && i32::MIN <= y <= i32::MAX {
        Position { x: x as i32, y: y as i32 }
    } else {
        e.transform.position
    };
    Entity { transform: Transform { position: p, direction, ..e.transform }, ..e }
}

/// How many placement attempts an entity gets: more for boats.
pub open spec fn attempt_budget(e: Entity) -> int {
    if is_boat(e) {
        128
    } else {
        8
    }
}

/// The number of entities of type `t` in `s`.
pub open spec fn count_of(s: Seq<Entity>, t: EntityType) -> nat
    decreases s.len(),
{
    if s.len() == 0 {
        0
    } else {
        count_of(s.drop_last(), t) + if s.last().entity_type == t {
            1nat
        } else {
            0nat
        }
    }
}

/// Appending entities all of type `t` raises the count of `t` by their number and
/// leaves every other count alone.
pub proof fn lemma_count_append(s: Seq<Entity>, a: Seq<Entity>, t: EntityType, u: EntityType)
    requires
        forall|i: int| 0 <= i < a.len() ==> (#[trigger] a[i]).entity_type == t,
    ensures
        count_of(s + a, u) == count_of(s, u) + if u == t {
            a.len()
        } else {
            0
        },
    decreases a.len(),
{
    if a.len() == 0 {
        assert(s + a =~= s);
    } else {
        let b = a.drop_last();
        assert((s + a).drop_last() =~= s + b);
        assert((s + a).last() == a.last());
        lemma_count_append(s, b, t, u);
    }
}

/// How many of a static type the world aims to hold: its area (taking 355/113 for
/// pi) divided by the square metres per entity, rounded up. The radius is in
/// millimetres.
pub open spec fn spec_target_count(radius: int, area_per_entity: int) -> int {
    let num = 355 * radius * radius;
    let den = 113 * area_per_entity * 1_000_000;
    (num + den - 1) / den
}

/// The entity `e` as the world holds it once added at place `id`.
pub open spec fn with_id(e: Entity, id: int) -> Entity {
    Entity { id: id as usize, ..e }
}

/// An entity of type `t` as `spawn_static` makes it, before the world gives it an id.
pub open spec fn static_entity(t: EntityType, position: Position, direction: u16, velocity: i32, ticks: u16) -> Entity {
    Entity {
        entity_type: t,
        id: 0,
        player: None,
        transform: Transform { position, direction, velocity },
        guidance: Guidance { velocity_target: 0, direction_target: direction },
        altitude: 0,
        ticks,
    }
}

/// Whether `e` may be placed where it stands among the entities `ents`, in a world
/// of the given radius over `terrain`; see `World::spec_can_spawn`.
pub open spec fn can_spawn_among(radius: u32, terrain: Terrain, ents: Seq<Entity>, e: Entity, threshold: int) -> bool {
    let d = e.spec_data();
    let p = e.transform.position;
    if p.x * p.x + p.y * p.y > radius * radius {
        false
    } else if d.kind == EntityKind::Decoy || d.kind == EntityKind::Weapon {
        &&& forall|i: int|
            0 <= i < ents.len() ==> !((#[trigger] ents[i]).spec_data().kind == EntityKind::Obstacle
                && collides(e, ents[i]))
        &&& !terrain.spec_land_in_square(p, 2 * d.radius)
    } else if d.kind == EntityKind::Collectible || d.kind == EntityKind::Aircraft {
        !terrain.spec_land_in_square(p, 2 * d.radius)
    } else {
        &&& terrain.spec_land_in_square(p, (d.radius + SCALE) * 2 * threshold / THRESHOLD_ONE as int)
            == d.spec_is_land_based()
        &&& forall|i: int| 0 <= i < ents.len() ==> !blocks(e, #[trigger] ents[i], threshold)
    }
}

/// How many entities a refill adds at most: what is missing from `target`, but no
/// more than `rate`.
pub open spec fn refill_amount(current: u64, target: u64, rate: u64) -> int {
    if current >= target {
        0
    } else if target - current < rate {
        target - current
    } else {
        rate as int
    }
}

/// Whether entry `i` of `s` is an entity of type `t` as a refill adds it: made by
/// `static_entity` at rest, within the world's radius, younger than a quarter of its
/// lifespan (or of age zero when that quarter is zero), with its place as its id, and
/// placeable among the entities before it.
pub open spec fn is_static_spawn(radius: u32, terrain: Terrain, t: EntityType, s: Seq<Entity>, i: int) -> bool {
    let e = s[i];
    let p = e.transform.position;
    let quarter = t.spec_data().lifespan / 4;
    let made = static_entity(t, p, e.transform.direction, 0, e.ticks);
    &&& e == with_id(made, i)
    &&& p.x * p.x + p.y * p.y <= radius * radius
    &&& if quarter == 0 {
        e.ticks == 0
    } else {
        e.ticks < quarter
    }
    &&& can_spawn_among(radius, terrain, s.subrange(0, i), made, THRESHOLD_ONE as int)
}

/// What refilling up to `amount` entities of type `t` into `before` leaves as
/// `after`: the old entities unchanged in front, then at most `amount` refill
/// entities; exactly `amount` of them for a collectible on terrain without land.
pub open spec fn refilled(before: World, after: Seq<Entity>, t: EntityType, amount: int) -> bool {
    let n = before.entities@.len();
    &&& n <= after.len() <= n + amount
    &&& after.subrange(0, n as int) == before.entities@
    &&& forall|i: int| n <= i < after.len() ==> is_static_spawn(before.radius, before.terrain, t, after, i)
    &&& t.spec_data().kind == EntityKind::Collectible && (forall|i: int, j: int| !before.terrain.is_land(i, j))
        ==> after.len() == n + amount
}

/// Whether the point `(dx, dy)` away from `center` fits in a position.
pub open spec fn fits(center: Position, dx: int, dy: int) -> bool {
    &&& i32::MIN <= center.x + dx <= i32::MAX
    &&& i32::MIN <= center.y + dy <= i32::MAX
}

/// What spawning `e` near where it stands leaves in the entity list `after`, starting
/// from `before`, when it returns `r`. Nothing changes when it fails. With a zero
/// radius it is `try_spawn`. Otherwise the entity added is `e`, moved and turned, with
/// the next id and steering toward its direction; it may be placed with a threshold
/// of one; and for one attempt `k` within the budget it lies within that attempt's
/// radius, away from the starting point, where it may be placed with the threshold
/// that attempt was tested with.
pub open spec fn nearby_outcome(before: World, after: Seq<Entity>, e: Entity, initial_radius: u32, r: bool) -> bool {
    let limit = before.radius * 85 / 100;
    &&& !r ==> after == before.entities@
    &&& initial_radius == 0 ==> r == before.spec_can_spawn(e, THRESHOLD_ONE as int)
    &&& initial_radius == 0 && r ==> after == before.entities@.push(
        with_id(e, before.entities@.len() as int),
    )
    &&& initial_radius > 0 && r ==> {
        let placed = after.last();
        &&& after == before.entities@.push(placed)
        &&& before.spec_can_spawn(placed, THRESHOLD_ONE as int)
        &&& placed.id == before.entities@.len()
        &&& placed.entity_type == e.entity_type
        &&& placed.player == e.player
        &&& placed.transform.velocity == e.transform.velocity
        &&& placed.guidance.velocity_target == e.guidance.velocity_target
        &&& placed.guidance.direction_target == placed.transform.direction
        &&& placed.altitude == e.altitude
        &&& placed.ticks == e.ticks
        &&& placed.transform.position != e.transform.position
        &&& exists|k: nat|
            #![trigger search_at(initial_radius, limit, k)]
            k < attempt_budget(e) && {
                let s = search_at(initial_radius, limit, k);
                &&& distance_squared(placed.transform.position, e.transform.position) <= s.radius
                    * s.radius
                &&& before.spec_can_spawn(placed, next_search(s, limit).threshold as int)
            }
    }
}

/// After a successful spawn near a point, with an initial radius between one and 85%
/// of the world radius, the entity lies, for some attempt `k` within the budget, no
/// farther from the point than both 85% of the world radius and the initial radius
/// times 1.1 to the `k`.
pub proof fn lemma_nearby_within_bound(before: World, after: Seq<Entity>, e: Entity, initial_radius: u32)
    requires
        before.wf(),
        nearby_outcome(before, after, e, initial_radius, true),
        1 <= initial_radius <= before.radius * 85 / 100,
    ensures
        exists|k: nat|
            #![trigger pow(10, k)]
            k < attempt_budget(e) && {
                let limit = before.radius * 85 / 100;
                let d = distance_squared(after.last().transform.position, e.transform.position);
                &&& d <= limit * limit
                &&& d * (pow(10, k) * pow(10, k)) <= (initial_radius * pow(11, k)) * (initial_radius
                    * pow(11, k))
            },
{
    let limit = before.radius * 85 / 100;
    let k = choose|k: nat|
        #![trigger search_at(initial_radius, limit, k)]
        k < attempt_budget(e) && {
            let s = search_at(initial_radius, limit, k);
            &&& distance_squared(after.last().transform.position, e.transform.position) <= s.radius
                * s.radius
            &&& before.spec_can_spawn(after.last(), next_search(s, limit).threshold as int)
        };
    lemma_search_radius_bound(initial_radius, limit, k);
    lemma_pow_nonneg(10, k);
    let r = search_at(initial_radius, limit, k).radius as int;
    let d = distance_squared(after.last().transform.position, e.transform.position);
    let p10 = pow(10, k);
    let b = initial_radius * pow(11, k);
    assert(d <= limit * limit) by (nonlinear_arith)
        requires
            d <= r * r,
            0 <= r <= limit,
    ;
    assert(d * (p10 * p10) <= b * b) by (nonlinear_arith)
        requires
            d <= r * r,
            0 <= r,
            p10 >= 0,
            r * p10 <= b,
    ;
}

/// Whether an entity may be placed depends only on its type and position.
pub proof fn lemma_can_spawn_same_place(w: &World, a: Entity, b: Entity, t: int)
    requires
        a.entity_type == b.entity_type,
        a.transform.position == b.transform.position,
    ensures
        w.spec_can_spawn(a, t) == w.spec_can_spawn(b, t),
{
    assert forall|o: Entity| collides(a, o) == collides(b, o) && blocks(a, o, t) == blocks(b, o, t) by {}
}

/// Computes a uniformly random offset of length at most `radius`, by drawing points
/// of the enclosing square until one falls inside the circle (the centre after many
/// misses).
fn random_offset(radius: u64) -> (r: (i64, i64))
    requires
        radius <= 0x1_0000_0000,
    ensures
        r.0 * r.0 + r.1 * r.1 <= radius * radius,
        -radius <= r.0 <= radius,
        -radius <= r.1 <= radius,
{
    let mut tries: u32 = 0;
    let side = 2 * radius + 1;
    proof {
        assert(radius * radius <= 0x1_0000_0000 * 0x1_0000_0000) by (nonlinear_arith)
            requires
                radius <= 0x1_0000_0000,
        ;
    }
    let rr = radius as i128 * radius as i128;
    while tries < 64
        invariant
            side == 2 * radius + 1,
            rr == radius * radius,
            radius <= 0x1_0000_0000,
        decreases 64 - tries,
    {
        let x = random_below(side) as i64 - radius as i64;
        let y = random_below(side) as i64 - radius as i64;
        let xi = x as i128;
        let yi = y as i128;
        proof {
            assert(-0x1_0000_0000 <= xi <= 0x1_0000_0000);
            assert(-0x1_0000_0000 <= yi <= 0x1_0000_0000);
            assert(0 <= xi * xi <= 0x1_0000_0000 * 0x1_0000_0000 && 0 <= yi * yi <= 0x1_0000_0000
                * 0x1_0000_0000) by (nonlinear_arith)
                requires
                    -0x1_0000_0000 <= xi <= 0x1_0000_0000,
                    -0x1_0000_0000 <= yi <= 0x1_0000_0000,
            ;
        }
        if xi * xi + yi * yi <= rr {
            return (x, y);
        }
        tries = tries + 1;
    }
    (0, 0)
}

impl World {
    /// The world is within its limits and every entity's id is its place.
    pub open spec fn wf(&self) -> bool {
        &&& self.terrain.wf()
        &&& self.radius <= MAX_WORLD_RADIUS
        &&& forall|i: int| 0 <= i < self.entities@.len() ==> (#[trigger] self.entities@[i]).id == i
    }

    /// Whether `e` touches land.
    pub open spec fn spec_collides_with_terrain(&self, e: Entity) -> bool {
        self.terrain.spec_land_in_square(e.transform.position, 2 * e.spec_data().radius)
    }

    /// Whether `e` may be placed where it stands, with safety factor `threshold` (in
    /// millionths): inside the world; for decoys and weapons, clear of every obstacle
    /// and of land; for collectibles and aircraft, clear of land; for everything else,
    /// over land exactly when it is land-based (the square checked widened by the
    /// threshold), and blocked by no other entity.
    pub open spec fn spec_can_spawn(&self, e: Entity, threshold: int) -> bool {
        can_spawn_among(self.radius, self.terrain, self.entities@, e, threshold)
    }

    /// An empty world of the given radius (in millimetres) over `terrain`.
    pub fn new(radius: u32, terrain: Terrain) -> (r: World)
        requires
            terrain.wf(),
            radius <= MAX_WORLD_RADIUS,
        ensures
            r.wf(),
            r.radius == radius,
            r.terrain == terrain,
            r.entities@.len() == 0,
    {
        World { radius, terrain, entities: Vec::new() }
    }

    /// Whether the world is well formed (`wf`), for callers that cannot know it.
    pub fn is_valid(&self) -> (r: bool)
        ensures
            r == self.wf(),
    {
        if self.radius > MAX_WORLD_RADIUS || self.terrain.size > MAX_TERRAIN_SIZE {
            return false;
        }
        proof {
            assert(self.terrain.size * self.terrain.size <= 4096 * 4096) by (nonlinear_arith)
                requires
                    self.terrain.size <= 4096,
            ;
        }
        if self.terrain.land.len() != self.terrain.size * self.terrain.size {
            return false;
        }
        let mut i: usize = 0;
        while i < self.entities.len()
            invariant
                i <= self.entities@.len(),
                forall|k: int| 0 <= k < i ==> (#[trigger] self.entities@[k]).id == k,
            decreases self.entities.len() - i,
        {
            if self.entities[i].id != i {
                return false;
            }
            i = i + 1;
        }
        true
    }

    /// The number of live entities of type `t`.
    pub fn count(&self, t: EntityType) -> (r: usize)
        ensures
            r == count_of(self.entities@, t),
    {
        let mut n: usize = 0;
        let mut i: usize = 0;
        while i < self.entities.len()
            invariant
                i <= self.entities@.len(),
                n == count_of(self.entities@.subrange(0, i as int), t),
                n <= i,
            decreases self.entities.len() - i,
        {
            assert(self.entities@.subrange(0, i + 1).drop_last() =~= self.entities@.subrange(0, i as int));
            if self.entities[i].entity_type == t {
                n = n + 1;
            }
            i = i + 1;
        }
        assert(self.entities@.subrange(0, i as int) =~= self.entities@);
        n
    }

    /// Whether `e` touches land.
    fn collides_with_terrain(&self, e: &Entity) -> (r: bool)
        requires
            self.wf(),
        ensures
            r == self.spec_collides_with_terrain(*e),
    {
        proof {
            crate::catalog::lemma_catalog_bounds(e.entity_type);
        }
        self.terrain.land_in_square(e.transform.position, 2 * e.data().radius as i64)
    }

    /// Whether `e` may be placed where it stands, with safety factor `threshold` in
    /// millionths. An obstacle can only collide within the two radii, and another
    /// entity can only block within the room `e` must keep, so the whole list of
    /// entities is searched with no distance cut-off.
    pub fn can_spawn(&self, e: &Entity, threshold: u64) -> (r: bool)
        requires
            self.wf(),
            THRESHOLD_ONE <= threshold <= MAX_THRESHOLD,
        ensures
            r == self.spec_can_spawn(*e, threshold as int),
    {
        let p = e.transform.position;
        let rad = self.radius as u128;
        proof {
            assert(rad * rad <= 2_147_483_647 * 2_147_483_647) by (nonlinear_arith)
                requires
                    rad <= 2_147_483_647,
            ;
        }
        if distance_squared_of(p, Position { x: 0, y: 0 }) > rad * rad {
            return false;
        }
        let d = e.data();
        proof {
            crate::catalog::lemma_catalog_bounds(e.entity_type);
            assert(!(p.x * p.x + p.y * p.y > self.radius * self.radius));
        }
        if d.kind == EntityKind::Decoy || d.kind == EntityKind::Weapon {
            let mut i: usize = 0;
            while i < self.entities.len()
                invariant
                    self.wf(),
                    i <= self.entities@.len(),
                    d == e.spec_data(),
                    d.kind == EntityKind::Decoy || d.kind == EntityKind::Weapon,
                    p == e.transform.position,
                    !(p.x * p.x + p.y * p.y > self.radius * self.radius),
                    forall|k: int|
                        0 <= k < i ==> !((#[trigger] self.entities@[k]).spec_data().kind
                            == EntityKind::Obstacle && collides(*e, self.entities@[k])),
                decreases self.entities.len() - i,
            {
                let other = &self.entities[i];
                if other.data().kind == EntityKind::Obstacle && touches(e, other) {
                    return false;
                }
                i = i + 1;
            }
            return !self.collides_with_terrain(e);
        }
        if d.kind == EntityKind::Collectible || d.kind == EntityKind::Aircraft {
            return !self.collides_with_terrain(e);
        }
        proof {
            assert((d.radius + SCALE) * 2 * threshold <= (1_000_000 + 25_000) * 2 * 1_000_000_000_000)
                by (nonlinear_arith)
                requires
                    d.radius <= 1_000_000,
                    threshold <= 1_000_000_000_000,
            ;
        }
        let side = (d.radius as u64 + SCALE as u64) * 2 * threshold / THRESHOLD_ONE;
        if self.terrain.land_in_square(p, side as i64) != d.is_land_based() {
            return false;
        }
        let mut i: usize = 0;
        while i < self.entities.len()
            invariant
                self.wf(),
                i <= self.entities@.len(),
                THRESHOLD_ONE <= threshold <= MAX_THRESHOLD,
                d == e.spec_data(),
                !(d.kind == EntityKind::Decoy || d.kind == EntityKind::Weapon),
                !(d.kind == EntityKind::Collectible || d.kind == EntityKind::Aircraft),
                p == e.transform.position,
                !(p.x * p.x + p.y * p.y > self.radius * self.radius),
                self.terrain.spec_land_in_square(p, (d.radius + SCALE) * 2 * threshold / THRESHOLD_ONE as int)
                    == d.spec_is_land_based(),
                forall|k: int| 0 <= k < i ==> !blocks(*e, #[trigger] self.entities@[k], threshold as int),
            decreases self.entities.len() - i,
        {
            if blocks_spawn(e, &self.entities[i], threshold) {
                return false;
            }
            i = i + 1;
        }
        true
    }

    /// Adds `e` at the end of the entity list, with its place as its id.
    fn add(&mut self, e: Entity)
        requires
            old(self).wf(),
        ensures
            final(self).wf(),
            final(self).radius == old(self).radius,
            final(self).terrain == old(self).terrain,
            final(self).entities@ == old(self).entities@.push(with_id(e, old(self).entities@.len() as int)),
    {
        let id = self.entities.len();
        self.entities.push(Entity { id, ..e });
    }

    /// Adds `e` if it may be placed where it stands (with a threshold of one), and
    /// says whether it did. Nothing changes when it may not.
    pub fn try_spawn(&mut self, e: Entity) -> (r: bool)
        requires
            old(self).wf(),
        ensures
            final(self).wf(),
            final(self).radius == old(self).radius,
            final(self).terrain == old(self).terrain,
            r == old(self).spec_can_spawn(e, THRESHOLD_ONE as int),
            r ==> final(self).entities@ == old(self).entities@.push(
                with_id(e, old(self).entities@.len() as int),
            ),
            !r ==> final(self).entities@ == old(self).entities@,
    {
        if self.can_spawn(&e, THRESHOLD_ONE) {
            self.add(e);
            true
        } else {
            false
        }
    }

    /// One placement attempt of a search around `center`: `e` moved by `(dx, dy)` from
    /// `center` and turned to `direction`, the search one step further on, and whether
    /// the attempt is accepted. It is accepted when the new point fits in a position,
    /// differs from `center`, and `e` may be placed there with the next threshold.
    pub fn spawn_attempt(
        &self,
        search: SpawnSearch,
        e: &Entity,
        center: Position,
        dx: i64,
        dy: i64,
        direction: u16,
    ) -> (r: (SpawnSearch, Entity, bool))
        requires
            self.wf(),
            search_in_range(search),
            search.attempts < u32::MAX,
            -0x1_0000_0000 <= dx <= 0x1_0000_0000,
            -0x1_0000_0000 <= dy <= 0x1_0000_0000,
        ensures
            r.0 == next_search(search, self.radius * 85 / 100),
            search_in_range(r.0),
            r.1 == moved(*e, center, dx as int, dy as int, direction),
            r.2 == (fits(center, dx as int, dy as int) && r.1.transform.position != center
                && self.spec_can_spawn(r.1, r.0.threshold as int)),
    {
        let limit = self.radius as u64 * 85 / 100;
        let grown = search.radius * 11 / 10;
        let next = SpawnSearch {
            radius: if grown < limit {
                grown
            } else {
                limit
            },
            threshold: 50_000 + (search.threshold * 95 + 99) / 100,
            attempts: search.attempts + 1,
        };
        let x = center.x as i64 + dx;
        let y = center.y as i64 + dy;
        let mut placed = *e;
        placed.transform.direction = direction;
        if i32::MIN as i64 <= x && x <= i32::MAX as i64 && i32::MIN as i64 <= y && y
            <= i32::MAX as i64 {
            placed.transform.position = Position { x: x as i32, y: y as i32 };
            let ok = placed.transform.position != center && self.can_spawn(&placed, next.threshold);
            (next, placed, ok)
        } else {
            (next, placed, false)
        }
    }

    /// Spawns `e`, first moving and turning it at random around where it stands until
    /// an attempt is accepted, when `initial_radius` is positive; also returns how many
    /// attempts were made.
    ///
    /// Each attempt draws a point within the search radius of the starting point and a
    /// direction, and goes through `spawn_attempt`. Boats get 128 attempts, other
    /// entities 8. When none is accepted nothing is spawned; otherwise the entity,
    /// steering toward the direction it was turned to, is added if it may be placed
    /// there with a threshold of one. With a zero radius this is `try_spawn`.
    pub fn spawn_here_or_nearby_counted(&mut self, e: Entity, initial_radius: u32) -> (r: (bool, u32))
        requires
            old(self).wf(),
        ensures
            final(self).wf(),
            final(self).radius == old(self).radius,
            final(self).terrain == old(self).terrain,
            nearby_outcome(*old(self), final(self).entities@, e, initial_radius, r.0),
            r.1 <= attempt_budget(e),
            initial_radius > 0 && !r.0 ==> r.1 == attempt_budget(e) || exists|c: Entity|
                #![trigger old(self).spec_can_spawn(c, THRESHOLD_ONE as int)]
                c.entity_type == e.entity_type && c.transform.position != e.transform.position
                    && !old(self).spec_can_spawn(c, THRESHOLD_ONE as int),
    {
        if initial_radius == 0 {
            return (self.try_spawn(e), 0);
        }
        let center = e.transform.position;
        let limit = self.radius as u64 * 85 / 100;
        let budget: u32 = if e.data().kind == EntityKind::Boat {
            128
        } else {
            8
        };
        let mut search = SpawnSearch {
            radius: initial_radius as u64,
            threshold: 6 * THRESHOLD_ONE,
            attempts: 0,
        };
        let mut entity = e;
        let mut accepted = false;
        while search.attempts < budget && !accepted
            invariant
                self.wf(),
                self.radius == old(self).radius,
                self.terrain == old(self).terrain,
                self.entities@ == old(self).entities@,
                initial_radius > 0,
                limit == self.radius * 85 / 100,
                budget == attempt_budget(e),
                search.attempts <= budget,
                search == search_at(initial_radius, limit as int, search.attempts as nat),
                search_in_range(search),
                entity.entity_type == e.entity_type,
                entity.player == e.player,
                entity.transform.velocity == e.transform.velocity,
                entity.guidance == e.guidance,
                entity.altitude == e.altitude,
                entity.ticks == e.ticks,
                entity.id == e.id,
                center == e.transform.position,
                accepted ==> search.attempts >= 1 && entity.transform.position != center
                    && self.spec_can_spawn(entity, search.threshold as int) && distance_squared(
                    entity.transform.position,
                    center,
                ) <= search_at(initial_radius, limit as int, (search.attempts - 1) as nat).radius
                    * search_at(initial_radius, limit as int, (search.attempts - 1) as nat).radius,
            decreases budget - search.attempts,
        {
            let (dx, dy) = random_offset(search.radius);
            let direction = random_below(65536) as u16;
            let ghost before = search;
            let (next, moved_entity, ok) = self.spawn_attempt(search, &entity, center, dx, dy, direction);
            proof {
                if ok {
                    assert(distance_squared(moved_entity.transform.position, center) == dx * dx + dy * dy);
                }
                assert(next == search_at(initial_radius, limit as int, (before.attempts + 1) as nat));
            }
            search = next;
            entity = moved_entity;
            accepted = ok;
        }
        if !accepted {
            return (false, search.attempts);
        }
        entity.guidance.direction_target = entity.transform.direction;
        let ghost checked = entity;
        let spawned = self.try_spawn(entity);
        proof {
            if spawned {
                let k = (search.attempts - 1) as nat;
                let placed = self.entities@.last();
                assert(placed == with_id(entity, old(self).entities@.len() as int));
                lemma_can_spawn_same_place(&*old(self), placed, checked, search.threshold as int);
                assert(search_at(initial_radius, limit as int, k + 1) == next_search(
                    search_at(initial_radius, limit as int, k),
                    limit as int,
                ));
            }
        }
        proof {
            if !spawned {
                lemma_can_spawn_same_place(&*old(self), entity, checked, THRESHOLD_ONE as int);
                assert(!old(self).spec_can_spawn(entity, THRESHOLD_ONE as int));
            }
        }
        (spawned, search.attempts)
    }

    /// Spawns `e` as `spawn_here_or_nearby_counted` does, without the count.
    pub fn spawn_here_or_nearby(&mut self, e: Entity, initial_radius: u32) -> (r: bool)
        requires
            old(self).wf(),
        ensures
            final(self).wf(),
            final(self).radius == old(self).radius,
            final(self).terrain == old(self).terrain,
            nearby_outcome(*old(self), final(self).entities@, e, initial_radius, r),
    {
        self.spawn_here_or_nearby_counted(e, initial_radius).0
    }

    /// How many entities at one per `area_per_entity` square metres this world aims
    /// to hold.
    pub fn target_count(&self, area_per_entity: u64) -> (r: u64)
        requires
            self.wf(),
            1 <= area_per_entity <= 1_000_000_000,
        ensures
            r == spec_target_count(self.radius as int, area_per_entity as int),
    {
        let rad = self.radius as u128;
        proof {
            assert(355 * rad * rad <= 355 * 2_147_483_647 * 2_147_483_647) by (nonlinear_arith)
                requires
                    rad <= 2_147_483_647,
            ;
        }
        let num = 355 * rad * rad;
        let den = 113 * area_per_entity as u128 * 1_000_000;
        proof {
            let nn = num as int + den as int - 1;
            let dd = den as int;
            assert((nn / dd) * dd <= nn) by (nonlinear_arith)
                requires
                    dd >= 1,
                    nn >= 0,
            ;
            assert(nn / dd <= 20_000_000_000_000) by (nonlinear_arith)
                requires
                    dd >= 113_000_000,
                    0 <= nn <= 2_000_000_000_000_000_000_000,
                    (nn / dd) * dd <= nn,
            ;
        }
        ((num + den - 1) / den) as u64
    }

    /// Spawns one entity of type `entity_type` where and as given, steering straight
    /// ahead at no speed, if it may be placed there.
    pub fn spawn_static(
        &mut self,
        entity_type: EntityType,
        position: Position,
        direction: u16,
        velocity: i32,
        ticks: u16,
    )
        requires
            old(self).wf(),
        ensures
            final(self).wf(),
            final(self).radius == old(self).radius,
            final(self).terrain == old(self).terrain,
            ({
                let e = static_entity(entity_type, position, direction, velocity, ticks);
                &&& old(self).spec_can_spawn(e, THRESHOLD_ONE as int) ==> final(self).entities@
                    == old(self).entities@.push(with_id(e, old(self).entities@.len() as int))
                &&& !old(self).spec_can_spawn(e, THRESHOLD_ONE as int) ==> final(self).entities@
                    == old(self).entities@
            }),
    {
        self.try_spawn(
            Entity {
                entity_type,
                id: 0,
                player: None,
                transform: Transform { position, direction, velocity },
                guidance: Guidance { velocity_target: 0, direction_target: direction },
                altitude: 0,
                ticks,
            },
        );
    }

    /// Spawns up to `rate` entities of type `entity_type`, and no more than bring
    /// `current` up to `target`, each at a random point of the world, facing a random
    /// direction, at rest, and with a random age below a quarter of its lifespan. Each
    /// is added only if it may be placed where it was drawn, so on terrain without land
    /// every collectible is.
    fn spawn_static_amount(&mut self, entity_type: EntityType, current: u64, target: u64, rate: u64)
        requires
            old(self).wf(),
        ensures
            final(self).wf(),
            final(self).radius == old(self).radius,
            final(self).terrain == old(self).terrain,
            refilled(*old(self), final(self).entities@, entity_type, refill_amount(current, target, rate)),
    {
        let missing = target.saturating_sub(current);
        let n = if missing < rate {
            missing
        } else {
            rate
        };
        let lifespan = entity_type.data().lifespan;
        let ghost start = self.entities@;
        let ghost w = *old(self);
        let mut k: u64 = 0;
        while k < n
            invariant
                self.wf(),
                self.radius == old(self).radius,
                self.terrain == old(self).terrain,
                start == old(self).entities@,
                w == *old(self),
                lifespan == entity_type.spec_data().lifespan,
                k <= n,
                n == refill_amount(current, target, rate),
                start.len() <= self.entities@.len() <= start.len() + k,
                self.entities@.subrange(0, start.len() as int) == start,
                forall|i: int|
                    start.len() <= i < self.entities@.len() ==> is_static_spawn(
                        w.radius,
                        w.terrain,
                        entity_type,
                        self.entities@,
                        i,
                    ),
                entity_type.spec_data().kind == EntityKind::Collectible && (forall|i: int, j: int|
                    !w.terrain.is_land(i, j)) ==> self.entities@.len() == start.len() + k,
            decreases n - k,
        {
            let (x, y) = random_offset(self.radius as u64);
            let direction = random_below(65536) as u16;
            let age: u16 = if lifespan / 4 > 0 {
                random_below((lifespan / 4) as u64) as u16
            } else {
                0
            };
            let position = Position { x: x as i32, y: y as i32 };
            let ghost before = self.entities@;
            self.spawn_static(entity_type, position, direction, 0, age);
            proof {
                let e = static_entity(entity_type, position, direction, 0, age);
                assert forall|i: int|
                    start.len() <= i < self.entities@.len() implies is_static_spawn(
                        w.radius,
                        w.terrain,
                        entity_type,
                        self.entities@,
                        i,
                    ) by {
                    if i < before.len() {
                        assert(is_static_spawn(w.radius, w.terrain, entity_type, before, i));
                        assert(self.entities@.subrange(0, i) =~= before.subrange(0, i));
                        assert(self.entities@[i] == before[i]);
                    } else {
                        assert(self.entities@[i] == with_id(e, i));
                        assert(self.entities@.subrange(0, i) =~= before);
                    }
                }
                if self.entities@ != before {
                    assert(self.entities@.subrange(0, start.len() as int) =~= before.subrange(
                        0,
                        start.len() as int,
                    ));
                }
                if entity_type.spec_data().kind == EntityKind::Collectible && (forall|i: int, j: int|
                    !w.terrain.is_land(i, j)) {
                    assert(!w.terrain.spec_land_in_square(position, 2 * e.spec_data().radius));
                }
            }
            k = k + 1;
        }
    }

    /// Spawns crates, oil platforms and trees toward the numbers that their densities
    /// ask for in a world of this size, at most 150, 2 and 1 of each per tick
    /// respectively. Oil platforms and headquarters count together. Nothing is ever
    /// removed, and no count rises beyond both its earlier value and its target.
    pub fn spawn_statics(&mut self, ticks: u16)
        requires
            old(self).wf(),
        ensures
            final(self).wf(),
            final(self).radius == old(self).radius,
            final(self).terrain == old(self).terrain,
            final(self).entities@.len() >= old(self).entities@.len(),
            final(self).entities@.subrange(0, old(self).entities@.len() as int) == old(self).entities@,
            forall|i: int|
                old(self).entities@.len() <= i < final(self).entities@.len() ==> is_static_spawn(
                    old(self).radius,
                    old(self).terrain,
                    (#[trigger] final(self).entities@[i]).entity_type,
                    final(self).entities@,
                    i,
                ),
            ({
                let before = old(self).entities@;
                let after = final(self).entities@;
                let radius = old(self).radius as int;
                &&& count_of(after, EntityType::Crate) <= count_of(before, EntityType::Crate) + 150 * ticks
                &&& count_of(after, EntityType::Crate) <= count_of(before, EntityType::Crate)
                    || count_of(after, EntityType::Crate) <= spec_target_count(radius, CRATE_AREA as int)
                &&& count_of(after, EntityType::OilPlatform) + count_of(after, EntityType::Hq)
                    <= count_of(before, EntityType::OilPlatform) + count_of(before, EntityType::Hq) + 2 * ticks
                &&& count_of(after, EntityType::OilPlatform) + count_of(after, EntityType::Hq)
                    <= count_of(before, EntityType::OilPlatform) + count_of(before, EntityType::Hq)
                    || count_of(after, EntityType::OilPlatform) + count_of(after, EntityType::Hq)
                    <= spec_target_count(radius, OBSTACLE_AREA as int)
                &&& count_of(after, EntityType::Acacia) <= count_of(before, EntityType::Acacia) + ticks
                &&& count_of(after, EntityType::Acacia) <= count_of(before, EntityType::Acacia)
                    || count_of(after, EntityType::Acacia) <= spec_target_count(radius, VEGETATION_AREA as int)
                &&& (forall|i: int, j: int| !old(self).terrain.is_land(i, j)) ==> count_of(
                    after,
                    EntityType::Crate,
                ) == count_of(before, EntityType::Crate) + refill_amount(
                    count_of(before, EntityType::Crate) as u64,
                    spec_target_count(radius, CRATE_AREA as int) as u64,
                    (150 * ticks) as u64,
                )
            }),
    {
        let ghost start = self.entities@;
        let crate_count = self.count(EntityType::Crate) as u64;
        let platform_count = (self.count(EntityType::OilPlatform) as u64).saturating_add(
            self.count(EntityType::Hq) as u64,
        );
        let acacia_count = self.count(EntityType::Acacia) as u64;
        let crate_target = self.target_count(CRATE_AREA);
        let platform_target = self.target_count(OBSTACLE_AREA);
        let acacia_target = self.target_count(VEGETATION_AREA);
        let ghost w1 = *self;
        self.spawn_static_amount(EntityType::Crate, crate_count, crate_target, ticks as u64 * 150);
        let ghost with_crates = self.entities@;
        let ghost w2 = *self;
        self.spawn_static_amount(
            EntityType::OilPlatform,
            platform_count,
            platform_target,
            ticks as u64 * 2,
        );
        let ghost with_platforms = self.entities@;
        let ghost w3 = *self;
        self.spawn_static_amount(EntityType::Acacia, acacia_count, acacia_target, ticks as u64);
        let ghost with_trees = self.entities@;
        proof {
            let crates = with_crates.subrange(start.len() as int, with_crates.len() as int);
            let platforms = with_platforms.subrange(with_crates.len() as int, with_platforms.len() as int);
            let trees = with_trees.subrange(with_platforms.len() as int, with_trees.len() as int);
            assert(with_crates =~= start + crates);
            assert(with_platforms =~= with_crates + platforms);
            assert(with_trees =~= with_platforms + trees);
            assert forall|i: int| 0 <= i < crates.len() implies (#[trigger] crates[i]).entity_type
                == EntityType::Crate by {
                assert(is_static_spawn(w1.radius, w1.terrain, EntityType::Crate, with_crates, start.len() + i));
                assert(crates[i] == with_crates[start.len() + i]);
            }
            assert forall|i: int| 0 <= i < platforms.len() implies (#[trigger] platforms[i]).entity_type
                == EntityType::OilPlatform by {
                assert(is_static_spawn(
                    w2.radius,
                    w2.terrain,
                    EntityType::OilPlatform,
                    with_platforms,
                    with_crates.len() + i,
                ));
                assert(platforms[i] == with_platforms[with_crates.len() + i]);
            }
            assert forall|i: int| 0 <= i < trees.len() implies (#[trigger] trees[i]).entity_type
                == EntityType::Acacia by {
                assert(is_static_spawn(
                    w3.radius,
                    w3.terrain,
                    EntityType::Acacia,
                    with_trees,
                    with_platforms.len() + i,
                ));
                assert(trees[i] == with_trees[with_platforms.len() + i]);
            }
            lemma_count_append(start, crates, EntityType::Crate, EntityType::Crate);
            lemma_count_append(start, crates, EntityType::Crate, EntityType::OilPlatform);
            lemma_count_append(start, crates, EntityType::Crate, EntityType::Hq);
            lemma_count_append(start, crates, EntityType::Crate, EntityType::Acacia);
            lemma_count_append(with_crates, platforms, EntityType::OilPlatform, EntityType::Crate);
            lemma_count_append(with_crates, platforms, EntityType::OilPlatform, EntityType::OilPlatform);
            lemma_count_append(with_crates, platforms, EntityType::OilPlatform, EntityType::Hq);
            lemma_count_append(with_crates, platforms, EntityType::OilPlatform, EntityType::Acacia);
            lemma_count_append(with_platforms, trees, EntityType::Acacia, EntityType::Crate);
            lemma_count_append(with_platforms, trees, EntityType::Acacia, EntityType::OilPlatform);
            lemma_count_append(with_platforms, trees, EntityType::Acacia, EntityType::Hq);
            lemma_count_append(with_platforms, trees, EntityType::Acacia, EntityType::Acacia);
            assert(with_trees.subrange(0, start.len() as int) =~= start);
            assert forall|i: int| start.len() <= i < with_trees.len() implies is_static_spawn(
                w1.radius,
                w1.terrain,
                (#[trigger] with_trees[i]).entity_type,
                with_trees,
                i,
            ) by {
                if i < with_crates.len() {
                    assert(is_static_spawn(w1.radius, w1.terrain, EntityType::Crate, with_crates, i));
                    assert(with_trees.subrange(0, i) =~= with_crates.subrange(0, i));
                    assert(with_trees[i] == with_crates[i]);
                } else if i < with_platforms.len() {
                    assert(is_static_spawn(w2.radius, w2.terrain, EntityType::OilPlatform, with_platforms, i));
                    assert(with_trees.subrange(0, i) =~= with_platforms.subrange(0, i));
                    assert(with_trees[i] == with_platforms[i]);
                } else {
                    assert(is_static_spawn(w3.radius, w3.terrain, EntityType::Acacia, with_trees, i));
                }
            }
        }
    }
}

/// Whether the circles of two entities touch or overlap.
fn touches(a: &Entity, b: &Entity) -> (r: bool)
    ensures
        r == collides(*a, *b),
{
    proof {
        crate::catalog::lemma_catalog_bounds(a.entity_type);
        crate::catalog::lemma_catalog_bounds(b.entity_type);
    }
    let rsum = a.data().radius as u128 + b.data().radius as u128;
    proof {
        assert(rsum * rsum <= 2_000_000 * 2_000_000) by (nonlinear_arith)
            requires
                rsum <= 2_000_000,
        ;
    }
    distance_squared_of(a.transform.position, b.transform.position) <= rsum * rsum
}

/// Whether `other` keeps `e` from spawning with `threshold`.
fn blocks_spawn(e: &Entity, other: &Entity, threshold: u64) -> (r: bool)
    requires
        THRESHOLD_ONE <= threshold <= MAX_THRESHOLD,
    ensures
        r == blocks(*e, *other, threshold as int),
{
    let od = other.data();
    if od.kind == EntityKind::Collectible {
        return false;
    }
    let ed = e.data();
    proof {
        crate::catalog::lemma_catalog_bounds(e.entity_type);
        crate::catalog::lemma_catalog_bounds(other.entity_type);
    }
    let factor: u64 = if ed.kind == EntityKind::Boat && od.kind == EntityKind::Boat && od.level > 2 {
        threshold
    } else if threshold / 2 >= THRESHOLD_ONE {
        threshold / 2
    } else {
        THRESHOLD_ONE
    };
    let rsum = ed.radius as u128 + od.radius as u128;
    let dist = distance_squared_of(e.transform.position, other.transform.position);
    let one = THRESHOLD_ONE as u128;
    proof {
        assert(rsum * factor <= 2_000_000 * 1_000_000_000_000) by (nonlinear_arith)
            requires
                rsum <= 2_000_000,
                factor <= 1_000_000_000_000,
        ;
        assert(0 <= rsum * factor);
        assert((rsum * factor) * (rsum * factor) <= (2_000_000 * 1_000_000_000_000) * (2_000_000
            * 1_000_000_000_000)) by (nonlinear_arith)
            requires
                0 <= rsum * factor <= 2_000_000 * 1_000_000_000_000,
        ;
        assert(dist <= 0x2_0000_0000_0000_0000);
        assert(dist * (one * one) <= 0x2_0000_0000_0000_0000 * (1_000_000 * 1_000_000))
            by (nonlinear_arith)
            requires
                dist <= 0x2_0000_0000_0000_0000,
                one == 1_000_000,
        ;
    }
    let safe = rsum * factor as u128;
    dist * (one * one) <= safe * safe
}

} // verus!
