use crate::entity_type::EntityType;
use crate::kind::EntityKind;
use vstd::prelude::*;

verus! {

/// A turret or weapon mount as declared for a type: `count` copies, each also
/// mirrored across the keel when `symmetric` holds. Lengths are in millimetres and
/// angles in hundredths of a degree.
#[derive(Clone, Copy, Debug, PartialEq, Eq, Structural)]
pub struct MountDecl {
    pub entity_type: Option<EntityType>,
    pub forward: i32,
    pub side: i32,
    pub angle: i32,
    pub count: u8,
    pub symmetric: bool,
    pub vertical: bool,
    pub external: bool,
    pub hidden: bool,
    pub turret: Option<u8>,
}

/// One mount as it stands on a boat, after mirroring and copying.
#[derive(Clone, Copy, Debug, PartialEq, Eq, Structural)]
pub struct Mount {
    pub entity_type: Option<EntityType>,
    pub forward: i32,
    pub side: i32,
    pub angle: i32,
    pub vertical: bool,
    pub external: bool,
    pub hidden: bool,
    pub turret: Option<u8>,
}

/// A declared mount with the given fields.
pub open spec fn spec_decl(
    entity_type: Option<EntityType>,
    forward: i32,
    side: i32,
    angle: i32,
    count: u8,
    symmetric: bool,
    vertical: bool,
    external: bool,
    hidden: bool,
    turret: Option<u8>,
) -> MountDecl {
    MountDecl { entity_type, forward, side, angle, count, symmetric, vertical, external, hidden, turret }
}

/// Builds a declared mount.
pub fn decl(
    entity_type: Option<EntityType>,
    forward: i32,
    side: i32,
    angle: i32,
    count: u8,
    symmetric: bool,
    vertical: bool,
    external: bool,
    hidden: bool,
    turret: Option<u8>,
) -> (r: MountDecl)
    ensures
        r == spec_decl(entity_type, forward, side, angle, count, symmetric, vertical, external, hidden, turret),
{
    MountDecl { entity_type, forward, side, angle, count, symmetric, vertical, external, hidden, turret }
}

/// The negation of `v`, kept within `i32`.
pub open spec fn flip(v: i32) -> i32 {
    if v == i32::MIN {
        i32::MAX
    } else {
        (-v) as i32
    }
}

/// A declared mount placed as declared.
pub open spec fn placed(d: MountDecl) -> Mount {
    Mount {
        entity_type: d.entity_type,
        forward: d.forward,
        side: d.side,
        angle: d.angle,
        vertical: d.vertical,
        external: d.external,
        hidden: d.hidden,
        turret: d.turret,
    }
}

/// A declared mount placed on the other side, facing the mirrored angle.
pub open spec fn mirrored(d: MountDecl) -> Mount {
    Mount { side: flip(d.side), angle: flip(d.angle), ..placed(d) }
}

/// How many mounts one declaration becomes.
pub open spec fn copies_len(d: MountDecl) -> int {
    if d.symmetric {
        2 * d.count
    } else {
        d.count as int
    }
}

/// The mounts one declaration becomes: each copy as declared, followed by its mirror
/// image when the declaration is symmetric.
pub open spec fn copies(d: MountDecl) -> Seq<Mount> {
    Seq::new(
        copies_len(d) as nat,
        |i: int|
            if d.symmetric && i % 2 == 1 {
                mirrored(d)
            } else {
                placed(d)
            },
    )
}

/// The mounts a list of declarations becomes, in order.
pub open spec fn spec_expand(decls: Seq<MountDecl>) -> Seq<Mount>
    decreases decls.len(),
{
    if decls.len() == 0 {
        Seq::empty()
    } else {
        spec_expand(decls.drop_last()) + copies(decls.last())
    }
}

/// The total number of mounts a list of declarations becomes.
pub open spec fn expanded_len(decls: Seq<MountDecl>) -> int
    decreases decls.len(),
{
    if decls.len() == 0 {
        0
    } else {
        expanded_len(decls.drop_last()) + copies_len(decls.last())
    }
}

/// Mirrors and copies each declaration in order.
pub fn expand(decls: &Vec<MountDecl>) -> (r: Vec<Mount>)
    requires
        decls@.len() <= 64,
    ensures
        r@ == spec_expand(decls@),
{
    let mut r: Vec<Mount> = Vec::new();
    let mut i: usize = 0;
    while i < decls.len()
        invariant
            i <= decls@.len() <= 64,
            r@ == spec_expand(decls@.subrange(0, i as int)),
            r@.len() <= 512 * i,
        decreases decls.len() - i,
    {
        let d = decls[i];
        let ghost before = r@;
        let plain = Mount {
            entity_type: d.entity_type,
            forward: d.forward,
            side: d.side,
            angle: d.angle,
            vertical: d.vertical,
            external: d.external,
            hidden: d.hidden,
            turret: d.turret,
        };
        let mirror = Mount {
            side: if d.side == i32::MIN {
                i32::MAX
            } else {
                -d.side
            },
            angle: if d.angle == i32::MIN {
                i32::MAX
            } else {
                -d.angle
            },
            ..plain
        };
        let mut k: u8 = 0;
        while k < d.count
            invariant
                k <= d.count,
                plain == placed(d),
                mirror == mirrored(d),
                r@.len() == before.len() + if d.symmetric {
                    2 * k
                } else {
                    k as int
                },
                r@.subrange(0, before.len() as int) == before,
                forall|j: int|
                    0 <= j < r@.len() - before.len() ==> #[trigger] r@[before.len() + j] == (if d.symmetric
                        && j % 2 == 1 {
                        mirrored(d)
                    } else {
                        placed(d)
                    }),
            decreases d.count - k,
        {
            let ghost inner = r@;
            r.push(plain);
            if d.symmetric {
                r.push(mirror);
            }
            proof {
                assert(r@.subrange(0, before.len() as int) =~= inner.subrange(0, before.len() as int));
                assert forall|j: int| 0 <= j < r@.len() - before.len() implies #[trigger] r@[before.len() + j]
                    == (if d.symmetric && j % 2 == 1 {
                    mirrored(d)
                } else {
                    placed(d)
                }) by {
                    if before.len() + j < inner.len() {
                        assert(r@[before.len() + j] == inner[before.len() + j]);
                    }
                }
            }
            k = k + 1;
        }
        proof {
            let s = decls@.subrange(0, i + 1);
            assert(s.drop_last() =~= decls@.subrange(0, i as int));
            assert(s.last() == d);
            assert(r@.len() == before.len() + copies_len(d));
            assert forall|x: int| 0 <= x < r@.len() implies #[trigger] r@[x] == (before + copies(d))[x] by {
                if x < before.len() {
                    assert(r@.subrange(0, before.len() as int)[x] == r@[x]);
                } else {
                    let j = x - before.len();
                    assert(r@[before.len() + j] == (if d.symmetric && j % 2 == 1 {
                        mirrored(d)
                    } else {
                        placed(d)
                    }));
                }
            }
            assert(r@ =~= before + copies(d));
        }
        i = i + 1;
    }
    assert(decls@.subrange(0, i as int) =~= decls@);
    r
}

/// A list of declarations becomes as many mounts as their counts say, two per copy
/// for symmetric ones.
pub proof fn lemma_expand_len(decls: Seq<MountDecl>)
    ensures
        spec_expand(decls).len() == expanded_len(decls),
    decreases decls.len(),
{
    if decls.len() > 0 {
        lemma_expand_len(decls.drop_last());
    }
}

/// A symmetric declaration becomes mounts in pairs, each followed by its mirror
/// image; the mounts themselves carry no symmetry flag.
pub proof fn lemma_symmetric_pairs(d: MountDecl)
    requires
        d.symmetric,
    ensures
        copies(d).len() % 2 == 0,
        forall|i: int|
            0 <= i < copies(d).len() && i % 2 == 0 ==> #[trigger] copies(d)[i] == placed(d)
                && copies(d)[i + 1] == mirrored(d),
{
}

/// A mount as the declaration of one copy, not mirrored.
pub open spec fn as_decl(m: Mount) -> MountDecl {
    MountDecl {
        entity_type: m.entity_type,
        forward: m.forward,
        side: m.side,
        angle: m.angle,
        count: 1,
        symmetric: false,
        vertical: m.vertical,
        external: m.external,
        hidden: m.hidden,
        turret: m.turret,
    }
}

/// Expansion is complete: read back as declarations of single copies, an expanded
/// list expands to itself.
pub proof fn lemma_expand_idempotent(ms: Seq<Mount>)
    ensures
        spec_expand(ms.map_values(|m: Mount| as_decl(m))) == ms,
    decreases ms.len(),
{
    if ms.len() > 0 {
        let d = ms.map_values(|m: Mount| as_decl(m));
        let rest = ms.drop_last();
        assert(d.drop_last() =~= rest.map_values(|m: Mount| as_decl(m)));
        lemma_expand_idempotent(rest);
        assert(d.last() == as_decl(ms.last()));
        assert(copies(as_decl(ms.last())) =~= seq![ms.last()]);
        assert(ms =~= rest + seq![ms.last()]);
    } else {
        assert(ms =~= Seq::<Mount>::empty());
    }
}

impl EntityType {
    /// The turrets of this type as they stand, mirrored and copied.
    pub fn turrets(self) -> (r: Vec<Mount>)
        ensures
            r@ == spec_expand(self.spec_turret_decls()),
    {
        let decls = self.turret_decls();
        proof {
            lemma_mount_kinds(self);
        }
        expand(&decls)
    }

    /// The weapons of this type as they stand, mirrored and copied.
    pub fn armaments(self) -> (r: Vec<Mount>)
        ensures
            r@ == spec_expand(self.spec_armament_decls()),
    {
        let decls = self.armament_decls();
        proof {
            lemma_mount_kinds(self);
        }
        expand(&decls)
    }
}

/// Turret mounts hold turrets, and weapon mounts hold weapons, aircraft, decoys or
/// boats (the last for aircraft that carriers launch).
#[verifier::rlimit(100)]
pub proof fn lemma_mount_kinds(t: EntityType)
    ensures
        t.spec_turret_decls().len() <= 64,
        t.spec_armament_decls().len() <= 64,
        forall|i: int|
            0 <= i < t.spec_turret_decls().len() ==> match (#[trigger] t.spec_turret_decls()[i]).entity_type {
                Some(u) => u.spec_data().kind == EntityKind::Turret,
                None => true,
            },
        forall|i: int|
            0 <= i < t.spec_armament_decls().len() ==> match (#[trigger] t.spec_armament_decls()[i]).entity_type {
                Some(u) => {
                    let k = u.spec_data().kind;
                    k == EntityKind::Weapon || k == EntityKind::Aircraft || k == EntityKind::Decoy || k
                        == EntityKind::Boat
                },
                None => false,
            },
{
}

} // verus!
