use mk48_core::context_service::{ContextService, TickStep};
use mk48_core::entity::{Entity, Guidance, Position, Transform};
use mk48_core::entity_type::EntityType;
use mk48_core::terrain::{Terrain, SCALE};
use mk48_core::world::{SpawnSearch, World, CRATE_AREA, OBSTACLE_AREA, THRESHOLD_ONE, VEGETATION_AREA};

fn entity_at(entity_type: EntityType, x: i32, y: i32) -> Entity {
    Entity {
        entity_type,
        id: 0,
        player: None,
        transform: Transform { position: Position { x, y }, direction: 0, velocity: 0 },
        guidance: Guidance { velocity_target: 0, direction_target: 0 },
        altitude: 0,
        ticks: 0,
    }
}

fn water_world(radius_m: u32) -> World {
    let squares = (2 * radius_m as usize * 1000) / SCALE as usize + 2;
    World::new(radius_m * 1000, Terrain::water(squares))
}

#[test]
fn land_in_square_finds_land_squares() {
    let mut terrain = Terrain::water(8);
    // Square (5, 4) covers x from 25 m to 50 m and y from 0 m to 25 m.
    terrain.set_land(5, 4, true);
    assert!(terrain.land_in_square(Position { x: 30_000, y: 10_000 }, 0));
    assert!(!terrain.land_in_square(Position { x: 10_000, y: 10_000 }, 0));
    assert!(terrain.land_in_square(Position { x: 10_000, y: 10_000 }, 40_000));
    assert!(!terrain.land_in_square(Position { x: 10_000, y: 10_000 }, 20_000));
    assert!(!terrain.land_in_square(Position { x: 1_000_000, y: 0 }, 1_000));
    assert!(terrain.land_in_square(Position { x: 0, y: 0 }, 10_000_000));
}

#[test]
fn try_spawn_adds_with_ids_in_order() {
    let mut world = water_world(1000);
    assert!(world.try_spawn(entity_at(EntityType::Fletcher, 0, 0)));
    assert!(world.try_spawn(entity_at(EntityType::Crate, 200_000, 0)));
    assert_eq!(world.entities.len(), 2);
    assert_eq!(world.entities[0].id, 0);
    assert_eq!(world.entities[1].id, 1);
    assert_eq!(world.count(EntityType::Crate), 1);
    // Outside the world.
    assert!(!world.try_spawn(entity_at(EntityType::Crate, 1_000_001, 0)));
    // Too close to the destroyer.
    assert!(!world.try_spawn(entity_at(EntityType::ArleighBurke, 100_000, 0)));
    assert_eq!(world.entities.len(), 2);
}

#[test]
fn can_spawn_rules_by_kind() {
    let mut terrain = Terrain::water(80);
    terrain.set_land(40, 40, true);
    let mut world = World::new(900_000, terrain);
    // Collectibles avoid land only.
    assert!(!world.can_spawn(&entity_at(EntityType::Crate, 10_000, 10_000), THRESHOLD_ONE));
    assert!(world.can_spawn(&entity_at(EntityType::Crate, 100_000, 100_000), THRESHOLD_ONE));
    // Boats need water under a widened square; tanks need land.
    assert!(!world.can_spawn(&entity_at(EntityType::Fletcher, 100_000, 10_000), THRESHOLD_ONE));
    assert!(world.can_spawn(&entity_at(EntityType::Fletcher, 300_000, 10_000), THRESHOLD_ONE));
    assert!(world.can_spawn(&entity_at(EntityType::Sherman, 12_000, 12_000), THRESHOLD_ONE));
    assert!(!world.can_spawn(&entity_at(EntityType::Sherman, 300_000, 10_000), THRESHOLD_ONE));
    // Weapons avoid obstacles but not boats.
    assert!(world.try_spawn(entity_at(EntityType::OilPlatform, -300_000, 0)));
    assert!(!world.can_spawn(&entity_at(EntityType::Mark18, -250_000, 0), THRESHOLD_ONE));
    assert!(world.can_spawn(&entity_at(EntityType::Mark18, -150_000, 0), THRESHOLD_ONE));
    assert!(world.try_spawn(entity_at(EntityType::Fletcher, 300_000, -300_000)));
    assert!(world.can_spawn(&entity_at(EntityType::Mark18, 300_000, -300_000), THRESHOLD_ONE));
    // Collectibles never block, and a higher threshold widens the room kept.
    assert!(world.try_spawn(entity_at(EntityType::Crate, -500_000, 0)));
    assert!(world.can_spawn(&entity_at(EntityType::Fletcher, -500_000, 0), THRESHOLD_ONE));
    assert!(world.can_spawn(&entity_at(EntityType::Fletcher, -430_000, 0), THRESHOLD_ONE));
    assert!(!world.can_spawn(&entity_at(EntityType::Fletcher, -430_000, 0), 4 * THRESHOLD_ONE));
}

#[test]
fn spawn_nearby_widens_around_an_occupied_centre() {
    let mut world = water_world(1000);
    assert!(world.try_spawn(entity_at(EntityType::OilPlatform, 0, 0)));
    let boat = entity_at(EntityType::Fletcher, 0, 0);
    assert!(!world.can_spawn(&boat, THRESHOLD_ONE));
    let (spawned, attempts) = world.spawn_here_or_nearby_counted(boat, 50_000);
    assert!(spawned);
    assert!(1 <= attempts && attempts <= 128);
    assert_eq!(world.entities.len(), 2);
    let placed = world.entities[1];
    let p = placed.transform.position;
    let d2 = p.x as i64 * p.x as i64 + p.y as i64 * p.y as i64;
    assert!(d2 > 20_000 * 20_000);
    assert!(d2 <= 850_000 * 850_000);
    let bound = (50_000.0 * 1.1f64.powi(attempts as i32 - 1)).min(850_000.0);
    assert!((d2 as f64).sqrt() <= bound + 1.0);
    assert_eq!(placed.guidance.direction_target, placed.transform.direction);
    assert_eq!(placed.entity_type, EntityType::Fletcher);
    assert_eq!(world.entities[0].entity_type, EntityType::OilPlatform);
}

#[test]
fn spawn_nearby_with_zero_radius_tries_once() {
    let mut world = water_world(1000);
    assert!(world.try_spawn(entity_at(EntityType::OilPlatform, 0, 0)));
    assert!(!world.spawn_here_or_nearby(entity_at(EntityType::Fletcher, 0, 0), 0));
    assert!(world.spawn_here_or_nearby(entity_at(EntityType::Fletcher, 500_000, 0), 0));
    assert_eq!(world.entities[1].transform.position, Position { x: 500_000, y: 0 });
}

#[test]
fn target_counts_follow_the_area() {
    let world = water_world(2000);
    assert_eq!(world.target_count(CRATE_AREA), 419);
    assert_eq!(world.target_count(OBSTACLE_AREA), 13);
    assert_eq!(world.target_count(VEGETATION_AREA), 126);
}

#[test]
fn statics_refill_toward_their_densities() {
    let mut world = water_world(2000);
    world.spawn_statics(1);
    assert_eq!(world.count(EntityType::Crate), 150);
    assert!(world.count(EntityType::OilPlatform) <= 2);
    assert_eq!(world.count(EntityType::Acacia), 0);
    for _ in 0..100 {
        let before = world.entities.len();
        world.spawn_statics(1);
        assert!(world.entities.len() >= before);
        assert!(world.count(EntityType::Crate) <= 419);
        assert!(world.count(EntityType::OilPlatform) <= 13);
    }
    assert_eq!(world.count(EntityType::Crate), 419);
    for e in &world.entities {
        if e.entity_type == EntityType::Crate {
            assert!(e.ticks < 150);
        }
    }
}

#[test]
fn ticks_run_their_steps_in_order() {
    let mut service = ContextService::new(10);
    let steps = service.update();
    assert_eq!(service.counter, 1);
    assert_eq!(
        steps,
        vec![
            TickStep::PruneClients,
            TickStep::UpdateBotCount,
            TickStep::UpdateGame,
            TickStep::UpdatePlayers,
            TickStep::UpdateClients,
            TickStep::UpdateBots,
            TickStep::ProcessLeaderboard,
            TickStep::PostUpdate,
        ]
    );
    for _ in 1..49 {
        assert_eq!(service.update().len(), 8);
    }
    let steps = service.update();
    assert_eq!(service.counter, 50);
    assert_eq!(steps.len(), 9);
    assert_eq!(steps[8], TickStep::FlushBenchmarks);
    service.counter = u32::MAX;
    service.update();
    assert_eq!(service.counter, 0);
}

#[test]
fn a_spawn_attempt_moves_widens_and_relaxes() {
    let mut world = water_world(1000);
    assert!(world.try_spawn(entity_at(EntityType::OilPlatform, 0, 0)));
    let boat = entity_at(EntityType::Fletcher, 0, 0);
    let search = SpawnSearch { radius: 50_000, threshold: 6 * THRESHOLD_ONE, attempts: 0 };
    let centre = Position { x: 0, y: 0 };
    let (next, moved, ok) = world.spawn_attempt(search, &boat, centre, 30_000, -40_000, 1234);
    assert_eq!(next, SpawnSearch { radius: 55_000, threshold: 5_750_000, attempts: 1 });
    assert_eq!(moved.transform.position, Position { x: 30_000, y: -40_000 });
    assert_eq!(moved.transform.direction, 1234);
    assert!(!ok);
    // Far enough from the platform for the next threshold.
    let (_, _, ok) = world.spawn_attempt(search, &boat, centre, 500_000, 0, 0);
    assert!(ok);
    // The centre itself is never accepted.
    let mut empty = water_world(1000);
    let (_, _, ok) = empty.spawn_attempt(search, &boat, centre, 0, 0, 0);
    assert!(!ok);
    // The radius stops at 85% of the world radius; the threshold never drops below one.
    let wide = SpawnSearch { radius: 900_000, threshold: THRESHOLD_ONE, attempts: 3 };
    let (next, _, _) = empty.spawn_attempt(wide, &boat, centre, 0, 0, 0);
    assert_eq!(next, SpawnSearch { radius: 850_000, threshold: THRESHOLD_ONE, attempts: 4 });
    assert!(empty.spawn_here_or_nearby(boat, 10_000));
}

#[test]
fn spawn_nearby_gives_up_when_no_attempt_passes() {
    // All land: no place for a destroyer, any place for a tank.
    let mut terrain = Terrain::water(4);
    for i in 0..4 {
        for j in 0..4 {
            terrain.set_land(i, j, true);
        }
    }
    let mut world = World::new(20_000, terrain);
    let (spawned, attempts) = world.spawn_here_or_nearby_counted(entity_at(EntityType::Fletcher, 0, 0), 5_000);
    assert!(!spawned);
    assert_eq!(attempts, 128);
    assert!(world.entities.is_empty());
    let (spawned, attempts) = world.spawn_here_or_nearby_counted(entity_at(EntityType::Sherman, 0, 0), 1_000);
    assert!(spawned);
    assert!(1 <= attempts && attempts <= 128);
    assert!(world.is_valid());
}

#[test]
fn refill_adds_resting_young_entities_inside_the_world() {
    let mut world = water_world(500);
    world.spawn_statics(2);
    let target = world.target_count(CRATE_AREA) as usize;
    assert_eq!(world.count(EntityType::Crate), target.min(300));
    for e in &world.entities {
        assert_eq!(e.transform.velocity, 0);
        let p = e.transform.position;
        assert!(p.x as i64 * p.x as i64 + p.y as i64 * p.y as i64 <= 500_000i64 * 500_000);
        assert!(e.ticks < e.entity_type.data().lifespan / 4 || e.entity_type.data().lifespan / 4 == 0);
    }
}
