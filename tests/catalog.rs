use mk48_core::entity_type::{EntityType, ENTITY_TYPE_COUNT, MAX_BOAT_LEVEL, MAX_RADIUS};
use mk48_core::kind::{EntityKind, EntitySubKind};
use mk48_core::mount::expand;
use mk48_core::naming::DecodeError;

#[test]
fn every_type_round_trips_through_both_wire_forms() {
    let all = EntityType::iter();
    assert_eq!(all.len(), ENTITY_TYPE_COUNT as usize);
    for (i, t) in all.iter().enumerate() {
        assert_eq!(t.to_u8() as usize, i);
        assert_eq!(EntityType::from_u8(t.to_u8()), Some(*t));
        assert_eq!(EntityType::from_name(t.as_str()), Some(*t));
        assert_eq!(EntityType::decode_u8(t.to_u8()), Ok(*t));
        assert_eq!(EntityType::decode_name(t.as_str()), Ok(*t));
    }
}

#[test]
fn unknown_wire_values_are_invalid_encodings() {
    assert_eq!(EntityType::decode_u8(0xFF), Err(DecodeError::InvalidEntityTypeInteger(0xFF)));
    assert_eq!(
        EntityType::decode_u8(ENTITY_TYPE_COUNT),
        Err(DecodeError::InvalidEntityTypeInteger(ENTITY_TYPE_COUNT))
    );
    assert_eq!(
        EntityType::decode_name("NoSuchShip"),
        Err(DecodeError::InvalidEntityType("NoSuchShip".to_string()))
    );
    assert_eq!(EntityType::from_name(""), None);
    assert_eq!(EntityType::from_name("abrams"), None);
    assert_eq!(EntityType::from_name("Abrams "), None);
    assert_eq!(EntityType::from_name("Äbrams"), None);
}

#[test]
fn names_and_ordinals_are_stable() {
    assert_eq!(EntityType::Abrams.as_str(), "Abrams");
    assert_eq!(EntityType::Akula.as_str(), "Akula");
    assert_eq!(EntityType::Abrams.to_u8(), 0);
    assert_eq!(EntityType::Yj18.to_u8(), 188);
    assert_eq!(EntityType::_100Mm.as_str(), "OneZeroZeroMm");
    assert_eq!(EntityType::from_name("TwoM3M"), Some(EntityType::_2M3M));
    assert_eq!(EntityType::from_name("J15"), Some(EntityType::J15));
}

#[test]
fn boats_have_levels_in_range_and_radii_below_the_maximum() {
    let mut boats = 0;
    for t in EntityType::iter() {
        let d = t.data();
        assert!(d.radius <= MAX_RADIUS);
        let diag = d.length as u64 * d.length as u64 + d.width as u64 * d.width as u64;
        let r = d.radius as u64;
        assert!(4 * r * r <= diag && diag < 4 * (r + 1) * (r + 1));
        if d.kind == EntityKind::Boat {
            boats += 1;
            assert!(1 <= d.level && d.level <= MAX_BOAT_LEVEL);
        }
    }
    assert!(boats > 0);
    assert_eq!(MAX_BOAT_LEVEL, 12);
}

#[test]
fn catalog_entries_hold_their_data() {
    let d = EntityType::Indiaman.data();
    assert_eq!(d.kind, EntityKind::Boat);
    assert_eq!(d.sub_kind, EntitySubKind::Pirate);
    assert_eq!(d.level, 3);
    assert_eq!(d.length, 52814);
    assert_eq!(d.radius, 27270);
    assert_eq!(EntityType::Crate.data().lifespan, 600);
}

#[test]
fn mounts_hold_the_right_kinds() {
    for t in EntityType::iter() {
        for m in t.turrets() {
            if let Some(u) = m.entity_type {
                assert_eq!(u.data().kind, EntityKind::Turret);
            }
        }
        for m in t.armaments() {
            let k = m.entity_type.unwrap().data().kind;
            assert!(matches!(
                k,
                EntityKind::Weapon | EntityKind::Aircraft | EntityKind::Decoy | EntityKind::Boat
            ));
        }
    }
}

#[test]
fn symmetric_and_counted_mounts_expand() {
    // Two symmetric pairs of two torpedo tubes, two vertical launchers and one
    // symmetric pair of rockets.
    let arms = EntityType::Akula.armaments();
    assert_eq!(arms.len(), 4 + 4 + 2 + 2);
    assert_eq!(arms[0].side, 1500);
    assert_eq!(arms[1].side, -1500);
    assert_eq!(arms[8].entity_type, Some(EntityType::Igla));
    assert!(arms[8].vertical);
    let decls = EntityType::Akula.armament_decls();
    assert_eq!(decls.len(), 4);
    assert_eq!(expand(&decls), arms);
    // One turret without a gun on each side, then the forward gun.
    let turrets = EntityType::ArleighBurke.turrets();
    assert_eq!(turrets.len(), 3);
    assert_eq!(turrets[0].entity_type, None);
    assert_eq!(turrets[2].entity_type, Some(EntityType::Mark12));
}
