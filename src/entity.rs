use crate::entity_type::{EntityData, EntityType};
use vstd::prelude::*;

verus! {

/// A point of the world, in millimetres from its centre.
#[derive(Clone, Copy, Debug, PartialEq, Eq, Structural)]
pub struct Position {
    pub x: i32,
    pub y: i32,
}

/// Where an entity is and how it moves. `direction` is a binary angle (a full turn
/// is 65536) and `velocity` is in millimetres per second along it.
#[derive(Clone, Copy, Debug, PartialEq, Eq, Structural)]
pub struct Transform {
    pub position: Position,
    pub direction: u16,
    pub velocity: i32,
}

/// Where an entity is steering to.
#[derive(Clone, Copy, Debug, PartialEq, Eq, Structural)]
pub struct Guidance {
    pub velocity_target: i32,
    pub direction_target: u16,
}

/// One live entity of the world.
#[derive(Clone, Copy, Debug, PartialEq, Eq, Structural)]
pub struct Entity {
    pub entity_type: EntityType,
    /// Given by the world when the entity is added.
    pub id: usize,
    pub player: Option<u32>,
    pub transform: Transform,
    pub guidance: Guidance,
    pub altitude: i8,
    /// Age in ticks.
    pub ticks: u16,
}

/// The squared distance between two points, in square millimetres.
pub open spec fn distance_squared(a: Position, b: Position) -> int {
    (a.x - b.x) * (a.x - b.x) + (a.y - b.y) * (a.y - b.y)
}

/// Computes `distance_squared`.
pub fn distance_squared_of(a: Position, b: Position) -> (r: u128)
    ensures
        r as int == distance_squared(a, b),
        r <= 0x2_0000_0000_0000_0000,
{
    let dx = a.x as i64 - b.x as i64;
    let dy = a.y as i64 - b.y as i64;
    let ax = if dx < 0 {
        (-dx) as u128
    } else {
        dx as u128
    };
    let ay = if dy < 0 {
        (-dy) as u128
    } else {
        dy as u128
    };
    proof {
        assert(ax * ax == dx * dx && ay * ay == dy * dy) by (nonlinear_arith)
            requires
                ax == dx || ax == -dx,
                ay == dy || ay == -dy,
        ;
        assert(ax * ax <= 0x1_0000_0000 * 0x1_0000_0000 && ay * ay <= 0x1_0000_0000 * 0x1_0000_0000)
            by (nonlinear_arith)
            requires
                ax <= 0x1_0000_0000,
                ay <= 0x1_0000_0000,
        ;
    }
    ax * ax + ay * ay
}

impl Entity {
    /// The data of this entity's type.
    pub open spec fn spec_data(&self) -> EntityData {
        self.entity_type.spec_data()
    }

    /// The data of this entity's type.
    pub fn data(&self) -> (r: EntityData)
        ensures
            r == self.spec_data(),
    {
        self.entity_type.data()
    }
}

} // verus!
