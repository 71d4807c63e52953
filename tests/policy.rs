use mk48_core::entity_type::EntityType;
use mk48_core::kind::EntityKind;
use mk48_core::policy::{level_to_score, natural_death_coins, MAX_DEATH_COINS};

#[test]
fn level_scores_rise_with_level() {
    assert_eq!(level_to_score(1), 0);
    assert_eq!(level_to_score(2), 10);
    assert_eq!(level_to_score(5), 500);
    assert_eq!(level_to_score(12), 64000);
    assert_eq!(level_to_score(13), u32::MAX);
    for l in 0..20u8 {
        assert!(level_to_score(l) <= level_to_score(l + 1));
    }
}

#[test]
fn death_coins_are_a_capped_tenth_of_the_score() {
    assert_eq!(natural_death_coins(0), 0);
    assert_eq!(natural_death_coins(999), 99);
    assert_eq!(natural_death_coins(10_000), MAX_DEATH_COINS);
    assert_eq!(natural_death_coins(u32::MAX), MAX_DEATH_COINS);
}

#[test]
fn upgrade_gate_needs_the_level_score() {
    let s = level_to_score(5);
    assert!(EntityType::Fletcher.can_upgrade_to(EntityType::ArleighBurke, s, false, false));
    assert!(!EntityType::Fletcher.can_upgrade_to(EntityType::ArleighBurke, s - 1, false, false));
}

#[test]
fn landing_ship_side_grade_window() {
    assert!(EntityType::Lst.can_upgrade_to(EntityType::Sherman, level_to_score(4), false, false));
    assert!(!EntityType::Lst.can_upgrade_to(EntityType::Sherman, level_to_score(6), false, false));
    assert!(!EntityType::Lst.can_upgrade_to(EntityType::Sherman, level_to_score(3), false, false));
}

#[test]
fn drones_are_for_moderators_only() {
    assert!(EntityType::Drone.can_spawn_as(1_000_000, false, true));
    assert!(!EntityType::Drone.can_spawn_as(1_000_000, false, false));
    assert!(!EntityType::Drone.can_spawn_as(1_000_000, true, true));
}

#[test]
fn bots_cannot_take_some_boats() {
    assert!(!EntityType::Sherman.can_upgrade_to(EntityType::Lst, 1_000_000, true, false));
    assert!(EntityType::Sherman.can_upgrade_to(EntityType::Lst, 0, false, false));
    assert!(!EntityType::Fletcher.can_upgrade_to(EntityType::Chinook, 1_000_000, true, false));
}

#[test]
fn moderators_switch_within_a_kind() {
    assert!(EntityType::ArleighBurke.can_upgrade_to(EntityType::Fletcher, 0, false, true));
    assert!(!EntityType::ArleighBurke.can_upgrade_to(EntityType::Crate, 0, false, true));
}

#[test]
fn only_boats_can_be_spawned_as() {
    for t in EntityType::spawn_options(u32::MAX, true, true) {
        assert_eq!(t.data().kind, EntityKind::Boat);
    }
    assert!(!EntityType::Crate.can_spawn_as(u32::MAX, false, true));
    let starters = EntityType::spawn_options(0, false, false);
    assert!(starters.contains(&EntityType::Olympias));
    assert!(!starters.contains(&EntityType::Fletcher));
    assert!(!starters.contains(&EntityType::Drone));
}

#[test]
fn upgrades_raise_the_level_but_for_cross_grades() {
    for a in EntityType::iter() {
        for b in a.upgrade_options(u32::MAX, false, false) {
            let (da, db) = (a.data(), b.data());
            if (a, b) == (EntityType::Lst, EntityType::Sherman) {
                assert!(db.level >= da.level);
            } else if !(da.sub_kind == mk48_core::kind::EntitySubKind::Tank
                || da.sub_kind == mk48_core::kind::EntitySubKind::LandingShip)
            {
                assert!(db.level > da.level);
            }
        }
    }
    // The tank to landing ship cross-grade may lower the level.
    assert!(EntityType::Abrams.can_upgrade_to(EntityType::Lst, 0, false, false));
}

#[test]
fn upgrade_options_are_empty_without_the_score() {
    assert!(EntityType::Fletcher.upgrade_options(0, false, false).is_empty());
    let options = EntityType::Fletcher.upgrade_options(level_to_score(5), false, false);
    assert!(options.contains(&EntityType::ArleighBurke));
    assert!(!options.contains(&EntityType::Fletcher));
    assert!(!EntityType::Sherman.upgrade_options(0, false, false).is_empty());
}

#[test]
fn reduced_lifespan_saturates() {
    assert_eq!(EntityType::Crate.reduced_lifespan(100), 500);
    assert_eq!(EntityType::Crate.reduced_lifespan(700), 0);
    assert_eq!(EntityType::Fletcher.reduced_lifespan(1), 0);
}

#[test]
fn loot_of_a_pirate_boat() {
    let loot = EntityType::Indiaman.loot(10_000, true);
    let coins = natural_death_coins(10_000) as usize;
    let pieces = loot.len() - coins;
    assert!((11..=13).contains(&pieces));
    for t in &loot[..pieces] {
        assert!(*t == EntityType::Crate || *t == EntityType::Coin);
    }
    for t in &loot[pieces..] {
        assert_eq!(*t, EntityType::Coin);
    }
}

#[test]
fn loot_piece_counts_follow_the_length() {
    assert_eq!(EntityType::Indiaman.piece_count(0), 11);
    assert_eq!(EntityType::Indiaman.piece_count(999), 13);
    assert_eq!(EntityType::Fletcher.piece_count(0), 25);
}

#[test]
fn loot_from_given_draws() {
    let picks = vec![0, 1, 3, 2, 0, 0, 0, 0, 0, 0, 0];
    let loot = EntityType::Indiaman.loot_from_draws(100, true, 0, &picks);
    assert_eq!(loot.len(), 11 + 10);
    assert_eq!(loot[0], EntityType::Crate);
    assert_eq!(loot[1], EntityType::Coin);
    assert_eq!(loot[2], EntityType::Coin);
    assert_eq!(loot[3], EntityType::Crate);
    assert_eq!(loot[11], EntityType::Coin);
    let loot = EntityType::Tanker.loot_from_draws(100, false, 0, &vec![1; 40]);
    assert_eq!(loot.len(), 179_000 * 9000 / 40_000_000);
    assert!(loot.iter().all(|t| *t == EntityType::Barrel));
    let loot = EntityType::Olympias.loot_from_draws(0, false, 0, &vec![0; 10]);
    assert_eq!(loot, vec![EntityType::Crate; 8]);
    let loot = EntityType::Fletcher.loot_from_draws(0, false, 500, &vec![7; 30]);
    assert!(loot.iter().all(|t| *t == EntityType::Scrap));
}
