use crate::catalog::lemma_ordinal_onto;
use crate::entity_type::{EntityType, ENTITY_TYPE_COUNT};
use crate::kind::{EntityKind, EntitySubKind};
use crate::naming::lemma_codec_round_trip;
use crate::random::random_below;
use arrayvec::ArrayVec;
use vstd::prelude::*;

verus! {

#[verifier::external_type_specification]
#[verifier::external_body]
#[verifier::reject_recursive_types(T)]
pub struct ExArrayVec<T, const CAP: usize>(ArrayVec<T, CAP>);

/// What a loot table holds, in order.
pub uninterp spec fn loot_items(v: ArrayVec<EntityType, 4>) -> Seq<EntityType>;

/// Relies on `ArrayVec::new`: a new vector is empty.
#[verifier::external_body]
fn new_loot_table() -> (r: ArrayVec<EntityType, 4>)
    ensures
        loot_items(r) == Seq::<EntityType>::empty(),
{
    ArrayVec::new()
}

/// Relies on `ArrayVec::push`: it appends `t`, and panics only when the vector is
/// already full.
#[verifier::external_body]
fn push_loot(v: &mut ArrayVec<EntityType, 4>, t: EntityType)
    requires
        loot_items(*old(v)).len() < 4,
    ensures
        loot_items(*final(v)) == loot_items(*old(v)).push(t),
{
    v.push(t)
}

/// Relies on `ArrayVec::len`: the number of items held.
#[verifier::external_body]
fn loot_len(v: &ArrayVec<EntityType, 4>) -> (r: usize)
    ensures
        r == loot_items(*v).len(),
{
    v.len()
}

/// Relies on `ArrayVec::as_slice`: the items held, in order.
#[verifier::external_body]
fn loot_at(v: &ArrayVec<EntityType, 4>, i: usize) -> (r: EntityType)
    requires
        i < loot_items(*v).len(),
    ensures
        r == loot_items(*v)[i as int],
{
    v.as_slice()[i]
}

/// The score needed to reach each boat level.
pub open spec fn spec_level_to_score(level: u8) -> u32 {
    match level {
        0 | 1 => 0,
        2 => 10,
        3 => 50,
        4 => 200,
        5 => 500,
        6 => 1000,
        7 => 2000,
        8 => 4000,
        9 => 8000,
        10 => 16000,
        11 => 32000,
        12 => 64000,
        _ => u32::MAX,
    }
}

/// The score needed to reach a boat level.
pub fn level_to_score(level: u8) -> (r: u32)
    ensures
        r == spec_level_to_score(level),
{
    match level {
        0 | 1 => 0,
        2 => 10,
        3 => 50,
        4 => 200,
        5 => 500,
        6 => 1000,
        7 => 2000,
        8 => 4000,
        9 => 8000,
        10 => 16000,
        11 => 32000,
        12 => 64000,
        _ => u32::MAX,
    }
}

/// A higher level never needs less score.
pub proof fn lemma_level_to_score_monotone(a: u8, b: u8)
    requires
        a <= b,
    ensures
        spec_level_to_score(a) <= spec_level_to_score(b),
{
}

/// The most coins a boat can drop on a natural death.
pub const MAX_DEATH_COINS: u32 = 200;

/// Coins dropped by a boat of the given score on a natural death: a tenth of the
/// score, capped at `MAX_DEATH_COINS`.
pub open spec fn spec_natural_death_coins(score: u32) -> u32 {
    if score / 10 < MAX_DEATH_COINS {
        score / 10
    } else {
        MAX_DEATH_COINS
    }
}

/// Coins dropped by a boat of the given score on a natural death.
pub fn natural_death_coins(score: u32) -> (r: u32)
    ensures
        r == spec_natural_death_coins(score),
{
    let coins = score / 10;
    if coins < MAX_DEATH_COINS {
        coins
    } else {
        MAX_DEATH_COINS
    }
}

/// The types in ordinal order.
pub open spec fn is_catalog_order(s: Seq<EntityType>) -> bool {
    &&& s.len() == ENTITY_TYPE_COUNT
    &&& forall|i: int| 0 <= i < s.len() ==> (#[trigger] s[i]).ordinal() == i
}

/// A list of types in strictly increasing ordinal order, which therefore holds
/// each type at most once.
pub open spec fn is_increasing(s: Seq<EntityType>) -> bool {
    forall|i: int, j: int| 0 <= i < j < s.len() ==> (#[trigger] s[i]).ordinal() < (#[trigger] s[j]).ordinal()
}

impl EntityType {
    /// Whether a player with this score may spawn as this type.
    pub open spec fn spec_can_spawn_as(self, score: u32, bot: bool, moderator: bool) -> bool {
        let d = self.spec_data();
        if (bot || !moderator) && d.sub_kind == EntitySubKind::Drone {
            false
        } else {
            d.kind == EntityKind::Boat && spec_level_to_score(d.level) <= score && (bot || !d.npc)
        }
    }

    /// Whether a player of this type may upgrade to `upgrade`; the first rule that
    /// applies decides.
    pub open spec fn spec_can_upgrade_to(
        self,
        upgrade: EntityType,
        score: u32,
        bot: bool,
        moderator: bool,
    ) -> bool {
        let d = self.spec_data();
        let u = upgrade.spec_data();
        if moderator && u.kind == d.kind {
            true
        } else if u.sub_kind == EntitySubKind::Drone && !moderator {
            false
        } else if bot && (upgrade == EntityType::Chinook || upgrade == EntityType::Lst) {
            false
        } else if self == EntityType::Lst && upgrade == EntityType::Sherman {
            spec_level_to_score(4) <= score && score < spec_level_to_score(6)
        } else if d.sub_kind == EntitySubKind::Tank && u.sub_kind == EntitySubKind::LandingShip {
            true
        } else if d.sub_kind == EntitySubKind::LandingShip && u.sub_kind == EntitySubKind::Tank {
            true
        } else {
            u.level > d.level && u.kind == d.kind && score >= spec_level_to_score(u.level) && (
            bot || !u.npc)
        }
    }

    /// Whether any upgrade is worth looking for.
    pub open spec fn spec_may_upgrade(self, score: u32, moderator: bool) -> bool {
        let d = self.spec_data();
        score >= spec_level_to_score(d.level) || d.sub_kind == EntitySubKind::Tank || d.sub_kind
            == EntitySubKind::LandingShip || moderator
    }

    /// The lifespan to start an entity at so that it expires after `desired_lifespan`
    /// ticks.
    pub fn reduced_lifespan(self, desired_lifespan: u16) -> (r: u16)
        ensures
            r as int == if self.spec_data().lifespan >= desired_lifespan {
                self.spec_data().lifespan - desired_lifespan
            } else {
                0
            },
    {
        self.data().lifespan.saturating_sub(desired_lifespan)
    }

    /// Whether a player with this score may spawn as this type. Drones are only for
    /// moderators who are not bots.
    pub fn can_spawn_as(self, score: u32, bot: bool, moderator: bool) -> (r: bool)
        ensures
            r == self.spec_can_spawn_as(score, bot, moderator),
    {
        let data = self.data();
        if (bot || !moderator) && data.sub_kind == EntitySubKind::Drone {
            return false;
        }
        data.kind == EntityKind::Boat && level_to_score(data.level) <= score && (bot || !data.npc)
    }

    /// Whether a player of this type may upgrade to `upgrade`.
    pub fn can_upgrade_to(self, upgrade: EntityType, score: u32, bot: bool, moderator: bool) -> (r:
        bool)
        ensures
            r == self.spec_can_upgrade_to(upgrade, score, bot, moderator),
    {
        let data = self.data();
        let upgrade_data = upgrade.data();
        if moderator && upgrade_data.kind == data.kind {
            return true;
        }
        if upgrade_data.sub_kind == EntitySubKind::Drone && !moderator {
            return false;
        }
        if bot && upgrade == EntityType::Chinook {
            return false;
        }
        if bot && upgrade == EntityType::Lst {
            return false;
        }
        if self == EntityType::Lst && upgrade == EntityType::Sherman {
            return score < level_to_score(6) && score >= level_to_score(4);
        }
        if data.sub_kind == EntitySubKind::Tank && upgrade_data.sub_kind
            == EntitySubKind::LandingShip {
            return true;
        }
        if data.sub_kind == EntitySubKind::LandingShip && upgrade_data.sub_kind
            == EntitySubKind::Tank {
            return true;
        }
        upgrade_data.level > data.level && upgrade_data.kind == data.kind && score
            >= level_to_score(upgrade_data.level) && (bot || !upgrade_data.npc)
    }

    /// Every type exactly once, in ordinal order.
    pub fn iter() -> (r: Vec<EntityType>)
        ensures
            is_catalog_order(r@),
            forall|t: EntityType| r@[t.ordinal()] == t,
    {
        let mut r: Vec<EntityType> = Vec::new();
        let mut n: u8 = 0;
        while n < ENTITY_TYPE_COUNT
            invariant
                n <= ENTITY_TYPE_COUNT,
                r@.len() == n,
                forall|i: int| 0 <= i < r@.len() ==> (#[trigger] r@[i]).ordinal() == i,
            decreases ENTITY_TYPE_COUNT - n,
        {
            proof {
                lemma_ordinal_onto(n);
            }
            match EntityType::from_u8(n) {
                Some(t) => r.push(t),
                None => {},
            }
            n = n + 1;
        }
        assert forall|t: EntityType| r@[t.ordinal()] == t by {
            crate::catalog::lemma_catalog_bounds(t);
            lemma_codec_round_trip(t);
            let u = r@[t.ordinal()];
            lemma_codec_round_trip(u);
        }
        r
    }

    /// The types that a player with this score may spawn as, in ordinal order.
    pub fn spawn_options(score: u32, bot: bool, moderator: bool) -> (r: Vec<EntityType>)
        ensures
            is_increasing(r@),
            forall|t: EntityType| r@.contains(t) <==> t.spec_can_spawn_as(score, bot, moderator),
    {
        let all = EntityType::iter();
        let mut r: Vec<EntityType> = Vec::new();
        let mut i: usize = 0;
        while i < all.len()
            invariant
                is_catalog_order(all@),
                forall|t: EntityType| all@[t.ordinal()] == t,
                i <= all@.len(),
                is_increasing(r@),
                forall|k: int| 0 <= k < r@.len() ==> (#[trigger] r@[k]).ordinal() < i,
                forall|t: EntityType|
                    t.ordinal() < i ==> (r@.contains(t) <==> t.spec_can_spawn_as(
                        score,
                        bot,
                        moderator,
                    )),
                forall|t: EntityType| #[trigger] r@.contains(t) ==> t.ordinal() < i,
            decreases all.len() - i,
        {
            let t = all[i];
            let ghost before = r@;
            if t.can_spawn_as(score, bot, moderator) {
                r.push(t);
            }
            proof {
                lemma_filter_step(
                    before,
                    r@,
                    t,
                    i as int,
                    |u: EntityType| u.spec_can_spawn_as(score, bot, moderator),
                    all@,
                );
            }
            i = i + 1;
        }
        proof {
            assert forall|t: EntityType| r@.contains(t) <==> t.spec_can_spawn_as(score, bot, moderator) by {
                crate::catalog::lemma_catalog_bounds(t);
            }
        }
        r
    }

    /// The types that a player of this type may upgrade to, in ordinal order; none
    /// when no upgrade is worth looking for.
    pub fn upgrade_options(self, score: u32, bot: bool, moderator: bool) -> (r: Vec<EntityType>)
        ensures
            is_increasing(r@),
            !self.spec_may_upgrade(score, moderator) ==> r@.len() == 0,
            self.spec_may_upgrade(score, moderator) ==> forall|t: EntityType|
                r@.contains(t) <==> self.spec_can_upgrade_to(t, score, bot, moderator),
    {
        let data = self.data();
        let mut r: Vec<EntityType> = Vec::new();
        if !(score >= level_to_score(data.level) || data.sub_kind == EntitySubKind::Tank
            || data.sub_kind == EntitySubKind::LandingShip || moderator) {
            return r;
        }
        let all = EntityType::iter();
        let mut i: usize = 0;
        while i < all.len()
            invariant
                is_catalog_order(all@),
                forall|t: EntityType| all@[t.ordinal()] == t,
                i <= all@.len(),
                is_increasing(r@),
                forall|k: int| 0 <= k < r@.len() ==> (#[trigger] r@[k]).ordinal() < i,
                forall|t: EntityType|
                    t.ordinal() < i ==> (r@.contains(t) <==> self.spec_can_upgrade_to(
                        t,
                        score,
                        bot,
                        moderator,
                    )),
                forall|t: EntityType| #[trigger] r@.contains(t) ==> t.ordinal() < i,
            decreases all.len() - i,
        {
            let t = all[i];
            let ghost before = r@;
            if self.can_upgrade_to(t, score, bot, moderator) {
                r.push(t);
            }
            proof {
                lemma_filter_step(
                    before,
                    r@,
                    t,
                    i as int,
                    |u: EntityType| self.spec_can_upgrade_to(u, score, bot, moderator),
                    all@,
                );
            }
            i = i + 1;
        }
        proof {
            assert forall|t: EntityType|
                r@.contains(t) <==> self.spec_can_upgrade_to(t, score, bot, moderator) by {
                crate::catalog::lemma_catalog_bounds(t);
            }
        }
        r
    }

    /// What a destroyed boat of this type drops, before the pick among them.
    pub open spec fn loot_table(self) -> Seq<EntityType> {
        match self.spec_data().sub_kind {
            EntitySubKind::Pirate => seq![EntityType::Crate, EntityType::Coin],
            EntitySubKind::Tanker => seq![EntityType::Scrap, EntityType::Barrel],
            _ => if self == EntityType::Olympias {
                seq![EntityType::Crate]
            } else {
                seq![EntityType::Scrap]
            },
        }
    }

    /// How many pieces a destroyed boat of this type drops: a quarter of its length
    /// in metres, scaled by a factor of 0.9 plus `jitter` ten-thousandths, rounded down.
    pub open spec fn spec_piece_count(self, jitter: u32) -> int {
        self.spec_data().length * (9000 + jitter) / 40_000_000
    }

    fn loot_table_of(self) -> (r: ArrayVec<EntityType, 4>)
        ensures
            loot_items(r) == self.loot_table(),
    {
        let mut table = new_loot_table();
        match self.data().sub_kind {
            EntitySubKind::Pirate => {
                push_loot(&mut table, EntityType::Crate);
                push_loot(&mut table, EntityType::Coin);
            },
            EntitySubKind::Tanker => {
                push_loot(&mut table, EntityType::Scrap);
                push_loot(&mut table, EntityType::Barrel);
            },
            _ => if self == EntityType::Olympias {
                push_loot(&mut table, EntityType::Crate);
            } else {
                push_loot(&mut table, EntityType::Scrap);
            },
        }
        assert(loot_items(table) =~= self.loot_table());
        table
    }

    /// How many pieces a destroyed boat of this type drops, for a `jitter` below 1000.
    pub fn piece_count(self, jitter: u32) -> (r: u32)
        requires
            jitter < 1000,
        ensures
            r == self.spec_piece_count(jitter),
    {
        proof {
            crate::catalog::lemma_catalog_bounds(self);
            assert(self.spec_data().length * (9000 + jitter) <= 2_000_000 * 10_000) by (nonlinear_arith)
                requires
                    self.spec_data().length <= 2_000_000,
                    jitter < 1000,
            ;
        }
        let length = self.data().length as u64;
        (length * (9000 + jitter as u64) / 40_000_000) as u32
    }

    /// What a destroyed boat of this type drops, given the draws: `jitter` scales the
    /// number of pieces, and the `k`-th piece is entry `picks[k]` (modulo its length) of
    /// the loot table. The pieces come first, then one coin per
    /// `spec_natural_death_coins(score)` when `score_to_coins` holds.
    pub fn loot_from_draws(self, score: u32, score_to_coins: bool, jitter: u32, picks: &Vec<u64>) -> (r:
        Vec<EntityType>)
        requires
            self.spec_data().kind == EntityKind::Boat,
            jitter < 1000,
            picks@.len() >= self.spec_piece_count(jitter),
        ensures
            ({
                let pieces = self.spec_piece_count(jitter);
                let coins = if score_to_coins {
                    spec_natural_death_coins(score) as int
                } else {
                    0
                };
                let table = self.loot_table();
                &&& r@.len() == pieces + coins
                &&& forall|k: int|
                    0 <= k < pieces ==> r@[k] == table[(picks@[k] % (table.len() as u64)) as int]
                &&& forall|k: int| pieces <= k < r@.len() ==> r@[k] == EntityType::Coin
            }),
    {
        let coins = if score_to_coins {
            natural_death_coins(score)
        } else {
            0
        };
        let pieces = self.piece_count(jitter);
        let table = self.loot_table_of();
        let n = loot_len(&table) as u64;
        let mut r: Vec<EntityType> = Vec::new();
        let mut k: u32 = 0;
        while k < pieces
            invariant
                k <= pieces,
                pieces == self.spec_piece_count(jitter),
                picks@.len() >= pieces,
                loot_items(table) == self.loot_table(),
                n == self.loot_table().len(),
                n > 0,
                r@.len() == k,
                forall|j: int| 0 <= j < k ==> r@[j] == self.loot_table()[(picks@[j] % n) as int],
            decreases pieces - k,
        {
            let choice = (picks[k as usize] % n) as usize;
            r.push(loot_at(&table, choice));
            k = k + 1;
        }
        let mut c: u32 = 0;
        while c < coins
            invariant
                c <= coins,
                coins <= MAX_DEATH_COINS,
                r@.len() == pieces + c,
                n == self.loot_table().len(),
                forall|j: int| 0 <= j < pieces ==> r@[j] == self.loot_table()[(picks@[j] % n) as int],
                forall|j: int| pieces <= j < r@.len() ==> r@[j] == EntityType::Coin,
            decreases coins - c,
        {
            r.push(EntityType::Coin);
            c = c + 1;
        }
        r
    }

    /// What a destroyed boat of this type drops: a random number of pieces between
    /// the counts for the smallest and largest jitter, each a random entry of the loot
    /// table, followed by the coins for the score when `score_to_coins` holds.
    pub fn loot(self, score: u32, score_to_coins: bool) -> (r: Vec<EntityType>)
        requires
            self.spec_data().kind == EntityKind::Boat,
        ensures
            exists|jitter: u32|
                #![trigger self.spec_piece_count(jitter)]
                jitter < 1000 && {
                    let pieces = self.spec_piece_count(jitter);
                    let coins = if score_to_coins {
                        spec_natural_death_coins(score) as int
                    } else {
                        0
                    };
                    &&& r@.len() == pieces + coins
                    &&& forall|k: int| 0 <= k < pieces ==> self.loot_table().contains(#[trigger] r@[k])
                    &&& forall|k: int| pieces <= k < r@.len() ==> r@[k] == EntityType::Coin
                },
    {
        let jitter = random_below(1000) as u32;
        let pieces = self.piece_count(jitter);
        let n = loot_len(&self.loot_table_of()) as u64;
        let mut picks: Vec<u64> = Vec::new();
        while picks.len() < pieces as usize
            invariant
                n == self.loot_table().len(),
                n > 0,
            decreases pieces - picks@.len(),
        {
            picks.push(random_below(n));
        }
        let r = self.loot_from_draws(score, score_to_coins, jitter, &picks);
        proof {
            let table = self.loot_table();
            assert forall|k: int| 0 <= k < self.spec_piece_count(jitter) implies table.contains(#[trigger] r@[k]) by {
                let idx = (picks@[k] % n) as int;
                assert(table[idx] == r@[k]);
            }
        }
        r
    }
}

/// One step of filtering the types in ordinal order: if `before` holds exactly the
/// wanted types with ordinals below `i`, then after keeping or dropping the type `t`
/// at ordinal `i` the list holds exactly the wanted types with ordinals up to `i`.
proof fn lemma_filter_step(
    before: Seq<EntityType>,
    after: Seq<EntityType>,
    t: EntityType,
    i: int,
    wanted: spec_fn(EntityType) -> bool,
    all: Seq<EntityType>,
)
    requires
        is_catalog_order(all),
        forall|u: EntityType| all[u.ordinal()] == u,
        0 <= i < all.len(),
        t == all[i],
        forall|u: EntityType| u.ordinal() < i ==> (before.contains(u) <==> wanted(u)),
        forall|u: EntityType| #[trigger] before.contains(u) ==> u.ordinal() < i,
        after == if wanted(t) {
            before.push(t)
        } else {
            before
        },
    ensures
        forall|u: EntityType| u.ordinal() < i + 1 ==> (after.contains(u) <==> wanted(u)),
{
    assert forall|u: EntityType| u.ordinal() < i + 1 implies (after.contains(u) <==> wanted(u)) by {
        if u.ordinal() < i {
            assert(before.contains(u) <==> wanted(u));
        }
        if u.ordinal() == i {
            assert(u == t);
            if wanted(u) {
                assert(after[after.len() - 1] == u);
            } else {
                assert(after == before);
            }
        } else if after.contains(u) && after != before {
            let k = choose|k: int| 0 <= k < after.len() && after[k] == u;
            if k < before.len() {
                assert(before[k] == u);
            }
        } else if before.contains(u) {
            let k = choose|k: int| 0 <= k < before.len() && before[k] == u;
            assert(after[k] == u);
        }
    }
}

/// Only boats can be spawned as.
pub proof fn lemma_spawn_only_boats(t: EntityType, score: u32, bot: bool, moderator: bool)
    requires
        t.spec_can_spawn_as(score, bot, moderator),
    ensures
        t.spec_data().kind == EntityKind::Boat,
{
}

/// Without a moderator, an upgrade never lowers the level, and outside the landing
/// ship to tank side-grade it raises it; the tank and landing-ship cross-grades are
/// the exception and are left out.
pub proof fn lemma_upgrade_raises_level(a: EntityType, b: EntityType, score: u32, bot: bool)
    requires
        a.spec_can_upgrade_to(b, score, bot, false),
        !(a.spec_data().sub_kind == EntitySubKind::Tank && b.spec_data().sub_kind
            == EntitySubKind::LandingShip),
        !(a.spec_data().sub_kind == EntitySubKind::LandingShip && b.spec_data().sub_kind
            == EntitySubKind::Tank),
    ensures
        b.spec_data().level >= a.spec_data().level,
        !(a == EntityType::Lst && b == EntityType::Sherman) ==> b.spec_data().level
            > a.spec_data().level,
{
}

} // verus!
