//! The scene: the entities that startup creates, and what a frame of the
//! control loop does to them.
//!
//! Entities are never removed, so an entity's handle is its position in the
//! scene.

use crate::control::{command, command_from_keys, down_held, pressed_codes, up_held, Velocity};
use crate::ship::ShipBundle;
use crate::vector::Vector3;
use bevy::input::keyboard::KeyCode;
use bevy::input::Input;
use vstd::prelude::*;

verus! {

/// The 2D viewpoint.
#[derive(Clone, Copy, Debug, PartialEq, Eq, Structural)]
pub struct Camera {
    pub center: Vector3,
}

impl Camera {
    /// The orthographic camera centred at the origin.
    pub fn new_2d() -> (camera: Camera)
        ensures
            camera.center == Vector3::origin(),
    {
        Camera { center: Vector3::new(0, 0, 0) }
    }
}

/// The ship entity: what it was spawned with, and the velocity last
/// commanded, if any.
#[derive(Clone, Copy, Debug)]
pub struct Ship {
    pub bundle: ShipBundle,
    pub velocity: Option<Velocity>,
}

/// An entity of the scene, by kind.
#[derive(Clone, Copy, Debug)]
pub enum Actor {
    Camera(Camera),
    Ship(Ship),
}

/// Why a lookup of the one player ship failed.
#[derive(Clone, Copy, Debug, PartialEq, Eq, Structural)]
pub enum QuerySingleError {
    NoEntities,
    MultipleEntities,
}

/// Whether `i` is the handle of a player ship, and the only one.
pub open spec fn is_sole_player(actors: Seq<Actor>, i: int) -> bool {
    &&& 0 <= i < actors.len()
    &&& actors[i] is Ship
    &&& forall|j: int| 0 <= j < actors.len() && actors[j] is Ship ==> j == i
}

/// Whether exactly one entity is a player ship.
pub open spec fn has_one_player(actors: Seq<Actor>) -> bool {
    exists|i: int| is_sole_player(actors, i)
}

/// Whether either command can be formed for every ship.
pub open spec fn ships_can_descend(actors: Seq<Actor>) -> bool {
    forall|i: int|
        0 <= i < actors.len() ==> (#[trigger] actors[i] matches Actor::Ship(ship)
            ==> ship.bundle.player.can_descend())
}

/// What startup leaves behind: the camera, then the ship, which has no
/// velocity yet.
pub open spec fn is_fresh(actors: Seq<Actor>) -> bool {
    &&& actors.len() == 2
    &&& actors[0] == Actor::Camera(Camera { center: Vector3::origin() })
    &&& actors[1] matches Actor::Ship(ship)
    &&& ship.bundle.as_spawned()
    &&& ship.velocity is None
}

/// One entity after a frame in which `up` and `down` say whether an up key
/// and a down key were held: a ship takes the commanded velocity, or keeps
/// its own where nothing is commanded; any other entity is untouched.
pub open spec fn after_frame_actor(actor: Actor, up: bool, down: bool) -> Actor {
    match actor {
        Actor::Ship(ship) => match command(up, down, ship.bundle.player) {
            Some(velocity) => Actor::Ship(Ship { bundle: ship.bundle, velocity: Some(velocity) }),
            None => actor,
        },
        Actor::Camera(_) => actor,
    }
}

/// The scene after one frame.
pub open spec fn after_frame(actors: Seq<Actor>, up: bool, down: bool) -> Seq<Actor> {
    Seq::new(actors.len(), |i: int| after_frame_actor(actors[i], up, down))
}

/// The scene after a run of frames, each given as (up held, down held),
/// first frame first.
pub open spec fn after_frames(actors: Seq<Actor>, frames: Seq<(bool, bool)>) -> Seq<Actor>
    decreases frames.len(),
{
    if frames.len() == 0 {
        actors
    } else {
        after_frame(after_frames(actors, frames.drop_last()), frames.last().0, frames.last().1)
    }
}

/// The entities of the game.
#[derive(Debug)]
pub struct Scene {
    pub actors: Vec<Actor>,
}

impl View for Scene {
    type V = Seq<Actor>;

    open spec fn view(&self) -> Seq<Actor> {
        self.actors@
    }
}

impl Scene {
    /// The scene with no entity in it.
    pub fn new() -> (scene: Scene)
        ensures
            scene@ == Seq::<Actor>::empty(),
    {
        Scene { actors: Vec::new() }
    }

    /// Looks up the one player ship. The lookup fails if there is none, and
    /// if there is more than one.
    pub fn single_player(&self) -> (found: Result<usize, QuerySingleError>)
        ensures
            match found {
                Ok(i) => is_sole_player(self@, i as int),
                Err(QuerySingleError::NoEntities) => forall|j: int|
                    0 <= j < self@.len() ==> !(self@[j] is Ship),
                Err(QuerySingleError::MultipleEntities) => exists|i: int, j: int|
                    0 <= i < j < self@.len() && self@[i] is Ship && self@[j] is Ship,
            },
            found is Ok <==> has_one_player(self@),
    {
        let mut first: Option<usize> = None;
        let mut i: usize = 0;
        while i < self.actors.len()
            invariant
                i <= self@.len(),
                match first {
                    Some(f) => f < i && self@[f as int] is Ship && forall|j: int|
                        0 <= j < i && self@[j] is Ship ==> j == f,
                    None => forall|j: int| 0 <= j < i ==> !(self@[j] is Ship),
                },
            decreases self@.len() - i,
        {
            if let Actor::Ship(_) = &self.actors[i] {
                if let Some(f) = first {
                    proof {
                        assert(self@[f as int] is Ship && self@[i as int] is Ship);
                        assert forall|k: int| !is_sole_player(self@, k) by {
                            if is_sole_player(self@, k) {
                                assert(f as int == k);
                                assert(i as int == k);
                            }
                        }
                    }
                    return Err(QuerySingleError::MultipleEntities);
                }
                first = Some(i);
            }
            i += 1;
        }
        match first {
            Some(f) => {
                assert(is_sole_player(self@, f as int));
                Ok(f)
            },
            None => {
                assert forall|k: int| !is_sole_player(self@, k) by {}
                Err(QuerySingleError::NoEntities)
            },
        }
    }
}

/// Creates the camera.
pub fn setup(scene: &mut Scene)
    ensures
        final(scene)@ == old(scene)@.push(Actor::Camera(Camera { center: Vector3::origin() })),
{
    scene.actors.push(Actor::Camera(Camera::new_2d()));
}

/// Creates the player's ship, at rest.
pub fn spawn_ship(scene: &mut Scene)
    ensures
        final(scene)@.len() == old(scene)@.len() + 1,
        final(scene)@.drop_last() == old(scene)@,
        final(scene)@.last() matches Actor::Ship(ship) && ship.bundle.as_spawned()
            && ship.bundle.player.can_descend() && ship.velocity is None,
{
    let ship = Ship { bundle: ShipBundle::new(), velocity: None };
    scene.actors.push(Actor::Ship(ship));
    assert(scene@.drop_last() =~= old(scene)@);
}

/// Runs startup on an empty scene: the camera first, then the ship.
pub fn startup() -> (scene: Scene)
    ensures
        is_fresh(scene@),
        is_sole_player(scene@, 1),
        has_one_player(scene@),
        ships_can_descend(scene@),
{
    let mut scene = Scene::new();
    setup(&mut scene);
    spawn_ship(&mut scene);
    proof {
        assert(scene@.drop_last()[0] == scene@[0]);
        assert(is_sole_player(scene@, 1));
    }
    scene
}

/// Runs one frame of the control loop: reads the keyboard, and gives the
/// one player ship the velocity that is commanded, if any.
pub fn ship_control(keys: &Input<KeyCode>, scene: &mut Scene)
    requires
        has_one_player(old(scene)@),
        ships_can_descend(old(scene)@),
    ensures
        final(scene)@ == after_frame(
            old(scene)@,
            up_held(pressed_codes(*keys)),
            down_held(pressed_codes(*keys)),
        ),
        !up_held(pressed_codes(*keys)) && !down_held(pressed_codes(*keys)) ==> final(scene)@
            == old(scene)@,
        has_one_player(final(scene)@),
        ships_can_descend(final(scene)@),
{
    let ghost up = up_held(pressed_codes(*keys));
    let ghost down = down_held(pressed_codes(*keys));
    if let Ok(i) = scene.single_player() {
        if let Actor::Ship(ship) = scene.actors[i] {
            if let Some(velocity) = command_from_keys(keys, &ship.bundle.player) {
                let moved = Ship { bundle: ship.bundle, velocity: Some(velocity) };
                scene.actors.set(i, Actor::Ship(moved));
            }
        }
    }
    proof {
        assert(scene@ =~= after_frame(old(scene)@, up, down));
        lemma_frame_keeps_players(old(scene)@, up, down);
        lemma_idle_frame_changes_nothing(old(scene)@);
    }
}

/// A frame neither creates nor removes a player ship, and changes no ship's
/// speed: handles stay valid, the one player ship stays the one, and either
/// command can still be formed.
pub proof fn lemma_frame_keeps_players(actors: Seq<Actor>, up: bool, down: bool)
    ensures
        after_frame(actors, up, down).len() == actors.len(),
        forall|i: int|
            0 <= i < actors.len() ==> (after_frame(actors, up, down)[i] is Ship
                <==> actors[i] is Ship),
        forall|i: int| is_sole_player(after_frame(actors, up, down), i) <==> is_sole_player(actors, i),
        has_one_player(after_frame(actors, up, down)) <==> has_one_player(actors),
        ships_can_descend(actors) ==> ships_can_descend(after_frame(actors, up, down)),
{
    let next = after_frame(actors, up, down);
    assert forall|i: int| 0 <= i < actors.len() implies (next[i] is Ship <==> actors[i] is Ship) by {}
    assert forall|i: int| is_sole_player(next, i) <==> is_sole_player(actors, i) by {
        if is_sole_player(next, i) {
            assert forall|j: int| 0 <= j < actors.len() && actors[j] is Ship implies j == i by {
                assert(next[j] is Ship);
            }
        }
        if is_sole_player(actors, i) {
            assert forall|j: int| 0 <= j < next.len() && next[j] is Ship implies j == i by {
                assert(actors[j] is Ship);
            }
        }
    }
    if has_one_player(actors) {
        let i = choose|i: int| is_sole_player(actors, i);
        assert(is_sole_player(next, i));
    }
    if has_one_player(next) {
        let i = choose|i: int| is_sole_player(next, i);
        assert(is_sole_player(actors, i));
    }
    if ships_can_descend(actors) {
        assert forall|i: int| 0 <= i < next.len() implies (#[trigger] next[i] matches Actor::Ship(
            ship,
        ) ==> ship.bundle.player.can_descend()) by {
            assert(actors[i] is Ship ==> actors[i]->Ship_0.bundle.player.can_descend());
        }
    }
}

/// A frame in which neither an up key nor a down key is held changes
/// nothing: every ship keeps the velocity it had.
pub proof fn lemma_idle_frame_changes_nothing(actors: Seq<Actor>)
    ensures
        after_frame(actors, false, false) == actors,
{
    assert(after_frame(actors, false, false) =~= actors);
}

/// However many frames run after startup, and whatever keys are held in
/// them, exactly one entity is a player ship, and it is the one that
/// startup spawned.
pub proof fn lemma_always_one_player(actors: Seq<Actor>, frames: Seq<(bool, bool)>)
    requires
        is_fresh(actors),
    ensures
        is_sole_player(after_frames(actors, frames), 1),
        has_one_player(after_frames(actors, frames)),
        after_frames(actors, frames).len() == 2,
    decreases frames.len(),
{
    if frames.len() == 0 {
        assert(is_sole_player(actors, 1));
    } else {
        lemma_always_one_player(actors, frames.drop_last());
        lemma_frame_keeps_players(
            after_frames(actors, frames.drop_last()),
            frames.last().0,
            frames.last().1,
        );
    }
}

} // verus!
