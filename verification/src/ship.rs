//! The player's ship: its one attribute, and everything it is spawned with.

use crate::layers::{collides_with, groups_of, in_group, masks_of, player_layers, Layer};
use crate::vector::Vector3;
use heron::CollisionLayers;
use heron::RigidBody;
use heron::RotationConstraints;
use vstd::prelude::*;

verus! {

/// The component that marks the player's ship. `speed.y` is the rate at
/// which the ship climbs or descends while a key is held.
#[derive(Clone, Copy, Debug, PartialEq, Eq, Structural)]
pub struct PlayerShip {
    pub speed: Vector3,
}

impl PlayerShip {
    /// The speed a ship has unless told otherwise.
    pub open spec fn default_speed() -> Vector3 {
        Vector3 { x: 0, y: 128, z: 0 }
    }

    /// Whether the downward rate `-speed.y` is a value of the component type.
    pub open spec fn can_descend(&self) -> bool {
        self.speed.y > i32::MIN
    }
}

impl Default for PlayerShip {
    fn default() -> (ship: PlayerShip)
        ensures
            ship.speed == PlayerShip::default_speed(),
            ship.can_descend(),
    {
        PlayerShip { speed: Vector3::new(0, 128, 0) }
    }
}

/// heron's classification of a body, variants and all.
#[verifier::external_type_specification]
pub struct ExRigidBody(RigidBody);

/// heron's rotation switches, one public flag per axis.
#[verifier::external_type_specification]
pub struct ExRotationConstraints(RotationConstraints);

/// `RotationConstraints::lock` builds the value with every axis refused.
pub assume_specification[ RotationConstraints::lock ]() -> (rotation: RotationConstraints)
    ensures
        !rotation.allow_x,
        !rotation.allow_y,
        !rotation.allow_z,
;

/// A capsule-shaped collision volume, in whole units.
#[derive(Clone, Copy, Debug, PartialEq, Eq, Structural)]
pub struct Capsule {
    /// Distance from the capsule's centre to the centre of either end cap.
    pub half_segment: u32,
    /// Radius of the end caps.
    pub radius: u32,
}

/// Surface properties of a body, in whole units.
#[derive(Clone, Copy, Debug, PartialEq, Eq, Structural)]
pub struct Material {
    pub restitution: u32,
    pub density: u32,
    pub friction: u32,
}

/// Everything the ship entity is created with.
#[derive(Clone, Copy, Debug)]
pub struct ShipBundle {
    /// File name of the sprite's image.
    pub texture: &'static str,
    pub position: Vector3,
    pub body: RigidBody,
    pub shape: Capsule,
    pub player: PlayerShip,
    pub material: Material,
    pub rotation: RotationConstraints,
    pub layers: CollisionLayers,
}

impl ShipBundle {
    /// Where the ship starts.
    pub open spec fn start() -> Vector3 {
        Vector3 { x: -480i32, y: 0, z: 0 }
    }

    /// What holds of the ship as it is spawned.
    pub open spec fn as_spawned(self) -> bool {
        &&& self.texture@ == "ship.png"@
        &&& self.position == ShipBundle::start()
        &&& self.body == RigidBody::Dynamic
        &&& self.shape == (Capsule { half_segment: 8, radius: 18 })
        &&& self.player.speed == PlayerShip::default_speed()
        &&& self.material == (Material { restitution: 0, density: 10, friction: 1 })
        &&& !self.rotation.allow_x
        &&& !self.rotation.allow_y
        &&& !self.rotation.allow_z
        &&& groups_of(self.layers) == Layer::Player.bits()
        &&& masks_of(self.layers) == Layer::World.bits()
    }

    /// The ship as it is spawned: a dynamic body at the left of the field,
    /// shaped as a capsule, never rotating, a member of `Player` that
    /// collides with `World` only.
    pub fn new() -> (ship: ShipBundle)
        ensures
            ship.as_spawned(),
            ship.player.can_descend(),
            forall|layer: Layer| in_group(ship.layers, layer) <==> layer == Layer::Player,
            forall|layer: Layer| collides_with(ship.layers, layer) <==> layer == Layer::World,
    {
        ShipBundle {
            texture: "ship.png",
            position: Vector3::new(-480, 0, 0),
            body: RigidBody::Dynamic,
            shape: Capsule { half_segment: 8, radius: 18 },
            player: PlayerShip::default(),
            material: Material { restitution: 0, density: 10, friction: 1 },
            rotation: RotationConstraints::lock(),
            layers: player_layers(),
        }
    }
}

} // verus!
