//! The control rule: which velocity a frame's keyboard state commands.

use crate::ship::PlayerShip;
use crate::vector::Vector3;
use bevy::input::keyboard::KeyCode;
use bevy::input::Input;
use vstd::prelude::*;

verus! {

/// A linear velocity, in units per second on each axis.
#[derive(Clone, Copy, Debug, PartialEq, Eq, Structural)]
pub struct Velocity {
    pub linear: Vector3,
}

impl Velocity {
    /// The velocity that moves along the given vector.
    pub fn from_linear(linear: Vector3) -> (velocity: Velocity)
        ensures
            velocity.linear == linear,
    {
        Velocity { linear }
    }
}

/// The velocity of a ship that climbs at its own rate.
pub open spec fn ascent(ship: PlayerShip) -> Velocity {
    Velocity { linear: Vector3::vertical(ship.speed.y as int) }
}

/// The velocity of a ship that descends at its own rate.
pub open spec fn descent(ship: PlayerShip) -> Velocity
    recommends
        ship.can_descend(),
{
    Velocity { linear: Vector3::vertical(-(ship.speed.y as int)) }
}

/// The command of one frame. Up wins over down; with neither held there is
/// no command, and whatever velocity the ship has stays as it is.
pub open spec fn command(up: bool, down: bool, ship: PlayerShip) -> Option<Velocity> {
    if up {
        Some(ascent(ship))
    } else if down {
        Some(descent(ship))
    } else {
        None
    }
}

/// Decides the frame's command from whether an up key and a down key are
/// held.
pub fn steer(up: bool, down: bool, ship: &PlayerShip) -> (cmd: Option<Velocity>)
    requires
        down && !up ==> ship.can_descend(),
    ensures
        cmd == command(up, down, *ship),
{
    if up {
        Some(Velocity::from_linear(Vector3::new(0, ship.speed.y, 0)))
    } else if down {
        Some(Velocity::from_linear(Vector3::new(0, -ship.speed.y, 0)))
    } else {
        None
    }
}

/// bevy's record of which inputs are held, carried as the engine defines it.
#[verifier::external_type_specification]
#[verifier::external_body]
#[verifier::reject_recursive_types(T)]
pub struct ExInput<T>(Input<T>);

/// bevy's key codes, variants and all.
#[verifier::external_type_specification]
pub struct ExKeyCode(KeyCode);

/// The key codes that a keyboard state holds as pressed.
pub uninterp spec fn pressed_codes(keys: Input<KeyCode>) -> Set<KeyCode>;

/// `Input::pressed` says whether the code is among those held as pressed.
#[verifier::external_body]
fn pressed(keys: &Input<KeyCode>, code: KeyCode) -> (held: bool)
    ensures
        held == pressed_codes(*keys).contains(code),
{
    keys.pressed(code)
}

/// Whether a key that means "up" is among the codes: the up arrow or `W`.
pub open spec fn up_held(codes: Set<KeyCode>) -> bool {
    codes.contains(KeyCode::Up) || codes.contains(KeyCode::W)
}

/// Whether a key that means "down" is among the codes: the down arrow or `S`.
pub open spec fn down_held(codes: Set<KeyCode>) -> bool {
    codes.contains(KeyCode::Down) || codes.contains(KeyCode::S)
}

/// Reads the keyboard state of a frame and decides the ship's command.
pub fn command_from_keys(keys: &Input<KeyCode>, ship: &PlayerShip) -> (cmd: Option<Velocity>)
    requires
        ship.can_descend(),
    ensures
        cmd == command(up_held(pressed_codes(*keys)), down_held(pressed_codes(*keys)), *ship),
{
    let up = pressed(keys, KeyCode::Up) || pressed(keys, KeyCode::W);
    let down = pressed(keys, KeyCode::Down) || pressed(keys, KeyCode::S);
    steer(up, down, ship)
}

/// While an up key is held and no down key, the ship climbs at its rate.
pub proof fn lemma_up_alone_climbs(codes: Set<KeyCode>, ship: PlayerShip)
    requires
        up_held(codes),
        !down_held(codes),
    ensures
        command(up_held(codes), down_held(codes), ship) == Some(ascent(ship)),
        ascent(ship).linear == (Vector3 { x: 0, y: ship.speed.y, z: 0 }),
{
}

/// While a down key is held and no up key, the ship descends at its rate.
pub proof fn lemma_down_alone_descends(codes: Set<KeyCode>, ship: PlayerShip)
    requires
        !up_held(codes),
        down_held(codes),
        ship.can_descend(),
    ensures
        command(up_held(codes), down_held(codes), ship) == Some(descent(ship)),
        descent(ship).linear.x == 0,
        descent(ship).linear.y == -ship.speed.y,
        descent(ship).linear.z == 0,
{
}

/// While an up key and a down key are both held, up wins.
pub proof fn lemma_up_wins(codes: Set<KeyCode>, ship: PlayerShip)
    requires
        up_held(codes),
        down_held(codes),
    ensures
        command(up_held(codes), down_held(codes), ship) == Some(ascent(ship)),
        ascent(ship).linear == (Vector3 { x: 0, y: ship.speed.y, z: 0 }),
{
}

/// While neither an up key nor a down key is held, nothing is commanded.
pub proof fn lemma_idle_commands_nothing(codes: Set<KeyCode>, ship: PlayerShip)
    requires
        !up_held(codes),
        !down_held(codes),
    ensures
        command(up_held(codes), down_held(codes), ship) is None,
{
}

} // verus!
