//! Collision layers: named groups of bodies, each standing for one bit of
//! the physics engine's 32-bit layer masks.

use heron::CollisionLayers;
use heron::PhysicsLayer;
use vstd::prelude::*;

verus! {

/// The physics layers of the game.
#[derive(Clone, Copy, Debug, PartialEq, Eq, Structural)]
pub enum Layer {
    World,
    Player,
    Enemies,
}

impl Layer {
    /// The mask with exactly this layer's bit set. Layers take their bits
    /// in declaration order, starting from the lowest.
    pub open spec fn bits(self) -> u32 {
        match self {
            Layer::World => 1u32,
            Layer::Player => 2u32,
            Layer::Enemies => 4u32,
        }
    }

    /// The mask with the bit of every layer set.
    pub open spec fn every_bit() -> u32 {
        7u32
    }
}

impl PhysicsLayer for Layer {
    fn to_bits(&self) -> (bits: u32)
        ensures
            bits == self.bits(),
    {
        match self {
            Layer::World => 1,
            Layer::Player => 2,
            Layer::Enemies => 4,
        }
    }

    fn all_bits() -> (bits: u32)
        ensures
            bits == Layer::every_bit(),
    {
        7
    }
}

/// heron's pair of layer masks, carried as the engine defines it.
#[verifier::external_type_specification]
#[verifier::external_body]
pub struct ExCollisionLayers(CollisionLayers);

/// The mask of the groups a body belongs to: what `CollisionLayers::groups_bits`
/// returns.
pub uninterp spec fn groups_of(layers: CollisionLayers) -> u32;

/// The mask of the groups a body collides with: what `CollisionLayers::masks_bits`
/// returns.
pub uninterp spec fn masks_of(layers: CollisionLayers) -> u32;

/// `CollisionLayers::none` builds the value with both masks zero.
pub assume_specification[ CollisionLayers::none ]() -> (layers: CollisionLayers)
    ensures
        groups_of(layers) == 0,
        masks_of(layers) == 0,
;

/// `CollisionLayers::with_group` ors the layer's bits, as `Layer::to_bits`
/// gives them, into the groups mask and leaves the collision mask alone.
#[verifier::external_body]
fn with_group(layers: CollisionLayers, layer: Layer) -> (out: CollisionLayers)
    ensures
        groups_of(out) == groups_of(layers) | layer.bits(),
        masks_of(out) == masks_of(layers),
{
    layers.with_group(layer)
}

/// `CollisionLayers::with_mask` ors the layer's bits, as `Layer::to_bits`
/// gives them, into the collision mask and leaves the groups mask alone.
#[verifier::external_body]
fn with_mask(layers: CollisionLayers, layer: Layer) -> (out: CollisionLayers)
    ensures
        groups_of(out) == groups_of(layers),
        masks_of(out) == masks_of(layers) | layer.bits(),
{
    layers.with_mask(layer)
}

/// Whether a body with these layers is a member of `layer`.
pub open spec fn in_group(layers: CollisionLayers, layer: Layer) -> bool {
    groups_of(layers) & layer.bits() != 0
}

/// Whether a body with these layers collides with members of `layer`.
pub open spec fn collides_with(layers: CollisionLayers, layer: Layer) -> bool {
    masks_of(layers) & layer.bits() != 0
}

/// The layers of a body that belongs to `group` alone and collides with
/// `mask` alone.
pub fn layers_of(group: Layer, mask: Layer) -> (layers: CollisionLayers)
    ensures
        groups_of(layers) == group.bits(),
        masks_of(layers) == mask.bits(),
        forall|layer: Layer| in_group(layers, layer) <==> layer == group,
        forall|layer: Layer| collides_with(layers, layer) <==> layer == mask,
{
    let layers = with_mask(with_group(CollisionLayers::none(), group), mask);
    proof {
        let g = group.bits();
        let m = mask.bits();
        assert(0u32 | g == g) by (bit_vector);
        assert(0u32 | m == m) by (bit_vector);
        lemma_bits_disjoint();
    }
    layers
}

/// The layers of the player's ship: a member of `Player`, colliding with
/// `World` only.
pub fn player_layers() -> (layers: CollisionLayers)
    ensures
        groups_of(layers) == Layer::Player.bits(),
        masks_of(layers) == Layer::World.bits(),
        forall|layer: Layer| in_group(layers, layer) <==> layer == Layer::Player,
        forall|layer: Layer| collides_with(layers, layer) <==> layer == Layer::World,
{
    layers_of(Layer::Player, Layer::World)
}

/// Two layers share a bit exactly when they are the same layer.
pub proof fn lemma_bits_disjoint()
    ensures
        forall|a: Layer, b: Layer| (#[trigger] a.bits() & #[trigger] b.bits() != 0) <==> a == b,
{
    assert(1u32 & 1u32 != 0) by (bit_vector);
    assert(2u32 & 2u32 != 0) by (bit_vector);
    assert(4u32 & 4u32 != 0) by (bit_vector);
    assert(1u32 & 2u32 == 0) by (bit_vector);
    assert(1u32 & 4u32 == 0) by (bit_vector);
    assert(2u32 & 1u32 == 0) by (bit_vector);
    assert(2u32 & 4u32 == 0) by (bit_vector);
    assert(4u32 & 1u32 == 0) by (bit_vector);
    assert(4u32 & 2u32 == 0) by (bit_vector);
}

} // verus!
