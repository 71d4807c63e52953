use vstd::prelude::*;

verus! {

/// The broad class of an entity type.
#[derive(Clone, Copy, Debug, PartialEq, Eq, Hash, Structural)]
pub enum EntityKind {
    Aircraft,
    Boat,
    Collectible,
    Decoy,
    Obstacle,
    Turret,
    Weapon,
}

/// A refinement of [`EntityKind`]; each entity type has exactly one.
#[derive(Clone, Copy, Debug, PartialEq, Eq, Hash, Structural)]
pub enum EntitySubKind {
    Aeroplane,
    Battleship,
    Carrier,
    Corvette,
    Depositor,
    DepthCharge,
    Destroyer,
    Dreadnought,
    Dredger,
    Drone,
    Ekranoplan,
    GlideBomb,
    Gun,
    Heli,
    Helicopter,
    Hovercraft,
    Icebreaker,
    LandingShip,
    Laser,
    Lcs,
    Mine,
    Minelayer,
    Missile,
    Mtb,
    Passenger,
    Pirate,
    Plane,
    Ram,
    Rocket,
    RocketTorpedo,
    Sam,
    Score,
    Shell,
    Shovel,
    Sonar,
    Starship,
    Structure,
    Submarine,
    Tank,
    TankShell,
    Tanker,
    Torpedo,
    Tree,
    Cruiser,
}

} // verus!
