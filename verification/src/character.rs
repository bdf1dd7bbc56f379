//! The character's per-tick kinematics: horizontal movement, jumping,
//! gravity with fall tracking, and position integration.
//!
//! Each step is specified by a transition function from the character state
//! before the step to the state after it; the executable step is proved to
//! return exactly that state. The intra-tick order (horizontal resolution,
//! then grounding/gravity, then the jump impulse, then integration with the
//! post-move ceiling clamp) lives in [`crate::game`].

use vstd::prelude::*;

use crate::level::Level;
use crate::level::ScreenPos;
use crate::level::spec_screen_to_tile_y;

verus! {

/// Horizontal speed, in screen units per tick, while a direction is held.
pub const MOVE_SPEED: i64 = 10;

/// Upward velocity added when jumping off the ground.
pub const JUMP_IMPULSE: i64 = 15;

/// Downward acceleration per tick while airborne.
pub const GRAVITY: i64 = 1;

/// Accumulated fall distance at or beyond which landing kills.
pub const FALL_DEATH_THRESHOLD: i64 = 150;

/// Bound on character state the simulation step functions accept; half of
/// [`crate::level::COORD_LIMIT`], leaving room for one integration step.
pub const STEP_LIMIT: i64 = 0x0800_0000_0000_0000;

/// Bound under which a character can go through a whole tick; a quarter of
/// [`STEP_LIMIT`], leaving room for every intermediate step.
pub const SIM_LIMIT: i64 = 0x0200_0000_0000_0000;

/// The character's velocity in screen units per tick. `y > 0` is rising.
#[derive(Clone, Copy, PartialEq, Eq, Structural, Debug)]
pub struct Velocity {
    pub x: i64,
    pub y: i64,
}

/// Fall tracker: the distance fallen since the character was last
/// grounded, as a nonnegative magnitude.
#[derive(Clone, Copy, PartialEq, Eq, Structural, Debug)]
pub struct Fall {
    pub distance: i64,
}

/// The single moving actor: screen position of its top-left corner (the
/// hitbox spans two tiles right and two tiles down from it), velocity, and
/// fall tracker.
#[derive(Clone, Copy, PartialEq, Eq, Structural, Debug)]
pub struct Character {
    pub position: ScreenPos,
    pub velocity: Velocity,
    pub fall: Fall,
}

/// Per-tick input snapshot handed in by the host: held directions, a
/// rising-edge jump, and whether any horizontal key was just released.
#[derive(Clone, Copy, PartialEq, Eq, Structural, Debug)]
pub struct InputState {
    pub left_held: bool,
    pub right_held: bool,
    pub jump_pressed: bool,
    pub horizontal_released: bool,
}

impl InputState {
    /// A snapshot with nothing held, pressed, or released.
    pub fn none() -> (r: InputState)
        ensures
            r == (InputState {
                left_held: false,
                right_held: false,
                jump_pressed: false,
                horizontal_released: false,
            }),
    {
        InputState { left_held: false, right_held: false, jump_pressed: false, horizontal_released: false }
    }
}

impl Character {
    /// Every component of the state lies within magnitude `m`, and the
    /// fall distance is nonnegative.
    pub open spec fn bounded(self, m: int) -> bool {
        &&& -m <= self.position.x as int <= m
        &&& -m <= self.position.y as int <= m
        &&& -m <= self.velocity.x as int <= m
        &&& -m <= self.velocity.y as int <= m
        &&& 0 <= self.fall.distance as int <= m
    }

    /// Horizontal velocity is one of the three values the control scheme
    /// produces: full speed either way, or stopped.
    pub open spec fn vx_valid(self) -> bool {
        ||| self.velocity.x == -MOVE_SPEED
        ||| self.velocity.x == 0
        ||| self.velocity.x == MOVE_SPEED
    }

    /// State small enough to go through a whole simulation tick.
    pub open spec fn in_sim_range(self) -> bool {
        self.bounded(SIM_LIMIT as int)
    }

    /// A freshly spawned character: at the screen origin, at rest, with no
    /// fall distance accumulated.
    pub fn new() -> (c: Character)
        ensures
            c == (Character {
                position: ScreenPos { x: 0, y: 0 },
                velocity: Velocity { x: 0, y: 0 },
                fall: Fall { distance: 0 },
            }),
    {
        Character {
            position: ScreenPos { x: 0, y: 0 },
            velocity: Velocity { x: 0, y: 0 },
            fall: Fall { distance: 0 },
        }
    }
}

/// Rightward resolution: blocked on the right, the character stops and is
/// nudged one unit back out of the wall; otherwise a held right key sets
/// full rightward speed.
pub open spec fn spec_move_right(ch: Character, level: Level, right_held: bool) -> Character {
    if level.spec_collides_right(ch.position.x as int, ch.position.y as int) {
        Character {
            position: ScreenPos { x: (ch.position.x - 1) as i64, y: ch.position.y },
            velocity: Velocity { x: 0, y: ch.velocity.y },
            fall: ch.fall,
        }
    } else if right_held {
        Character {
            position: ch.position,
            velocity: Velocity { x: MOVE_SPEED, y: ch.velocity.y },
            fall: ch.fall,
        }
    } else {
        ch
    }
}

/// Leftward resolution, the mirror image of [`spec_move_right`].
pub open spec fn spec_move_left(ch: Character, level: Level, left_held: bool) -> Character {
    if level.spec_collides_left(ch.position.x as int, ch.position.y as int) {
        Character {
            position: ScreenPos { x: (ch.position.x + 1) as i64, y: ch.position.y },
            velocity: Velocity { x: 0, y: ch.velocity.y },
            fall: ch.fall,
        }
    } else if left_held {
        Character {
            position: ch.position,
            velocity: Velocity { x: (-MOVE_SPEED) as i64, y: ch.velocity.y },
            fall: ch.fall,
        }
    } else {
        ch
    }
}

/// The character counts as grounded when a wall lies under its feet or it
/// has reached or passed the bottom edge of the grid.
pub open spec fn spec_grounded(ch: Character, level: Level) -> bool {
    ||| level.spec_collides_bottom(ch.position.x as int, ch.position.y as int)
    ||| spec_screen_to_tile_y(ch.position.y as int, level.size.height as int)
        > level.size.height as int
}

/// Gravity and grounding: grounded, the vertical velocity is zeroed and
/// the fall tracker reset, dying exactly when the accumulated fall distance
/// has reached the death threshold; airborne, the velocity drops by the
/// gravity constant and, while it points down, feeds the fall tracker.
pub open spec fn spec_gravity(ch: Character, level: Level) -> (Character, bool) {
    if spec_grounded(ch, level) {
        (
            Character {
                position: ch.position,
                velocity: Velocity { x: ch.velocity.x, y: 0 },
                fall: Fall { distance: 0 },
            },
            ch.fall.distance >= FALL_DEATH_THRESHOLD,
        )
    } else {
        let vy = ch.velocity.y - GRAVITY;
        let dist = if vy < 0 {
            ch.fall.distance - vy
        } else {
            ch.fall.distance as int
        };
        (
            Character {
                position: ch.position,
                velocity: Velocity { x: ch.velocity.x, y: vy as i64 },
                fall: Fall { distance: dist as i64 },
            },
            false,
        )
    }
}

/// Jump: a rising-edge jump input while a wall lies under the character's
/// feet adds the fixed upward impulse to the vertical velocity.
pub open spec fn spec_jump(ch: Character, level: Level, jump_pressed: bool) -> Character {
    if jump_pressed && level.spec_collides_bottom(ch.position.x as int, ch.position.y as int) {
        Character {
            position: ch.position,
            velocity: Velocity { x: ch.velocity.x, y: (ch.velocity.y + JUMP_IMPULSE) as i64 },
            fall: ch.fall,
        }
    } else {
        ch
    }
}

/// Integration: the position advances by the velocity on both axes; if the
/// character is still rising and its new position bonks a ceiling, the
/// vertical velocity is zeroed (after the move, so the character travels up
/// to the wall, never through it and never stopping a tick early); a
/// just-released horizontal key stops it immediately.
pub open spec fn spec_update_position(
    ch: Character,
    level: Level,
    horizontal_released: bool,
) -> Character {
    let px = ch.position.x + ch.velocity.x;
    let py = ch.position.y + ch.velocity.y;
    let vy = if ch.velocity.y > 0 && level.spec_collides_top(px, py) {
        0
    } else {
        ch.velocity.y as int
    };
    let vx = if horizontal_released {
        0
    } else {
        ch.velocity.x as int
    };
    Character {
        position: ScreenPos { x: px as i64, y: py as i64 },
        velocity: Velocity { x: vx as i64, y: vy as i64 },
        fall: ch.fall,
    }
}

/// Resolve rightward movement for this tick.
pub fn move_right(ch: &mut Character, level: &Level, right_held: bool)
    requires
        old(ch).bounded(STEP_LIMIT as int),
    ensures
        *final(ch) == spec_move_right(*old(ch), *level, right_held),
{
    if level.is_colliding_right(ch.position) {
        ch.velocity.x = 0;
        ch.position.x = ch.position.x - 1;
    } else if right_held {
        ch.velocity.x = MOVE_SPEED;
    }
}

/// Resolve leftward movement for this tick.
pub fn move_left(ch: &mut Character, level: &Level, left_held: bool)
    requires
        old(ch).bounded(STEP_LIMIT as int),
    ensures
        *final(ch) == spec_move_left(*old(ch), *level, left_held),
{
    if level.is_colliding_left(ch.position) {
        ch.velocity.x = 0;
        ch.position.x = ch.position.x + 1;
    } else if left_held {
        ch.velocity.x = -MOVE_SPEED;
    }
}

/// Apply gravity and grounding for this tick; the result reports whether
/// this landing kills the character (the accumulated fall distance reached
/// the death threshold just before the reset).
pub fn gravity(ch: &mut Character, level: &Level) -> (died: bool)
    requires
        old(ch).bounded(STEP_LIMIT as int),
    ensures
        (*final(ch), died) == spec_gravity(*old(ch), *level),
{
    let tile_pos = level.screen_pos_to_tile_pos(ch.position);
    let grounded = level.is_colliding_bottom(ch.position)
        || tile_pos.y > level.size.height as i64;
    if grounded {
        ch.velocity.y = 0;
        let died = ch.fall.distance >= FALL_DEATH_THRESHOLD;
        ch.fall.distance = 0;
        died
    } else {
        ch.velocity.y = ch.velocity.y - GRAVITY;
        if ch.velocity.y < 0 {
            ch.fall.distance = ch.fall.distance - ch.velocity.y;
        }
        false
    }
}

/// Apply the jump impulse for this tick if one was requested and the
/// character is grounded on a wall.
pub fn jump(ch: &mut Character, level: &Level, jump_pressed: bool)
    requires
        old(ch).bounded(STEP_LIMIT as int),
    ensures
        *final(ch) == spec_jump(*old(ch), *level, jump_pressed),
{
    if jump_pressed && level.is_colliding_bottom(ch.position) {
        ch.velocity.y = ch.velocity.y + JUMP_IMPULSE;
    }
}

/// Integrate the velocity into the position, clamp a head bonk after the
/// move, and stop horizontally on a key release.
pub fn update_position(ch: &mut Character, level: &Level, horizontal_released: bool)
    requires
        old(ch).bounded(STEP_LIMIT as int),
    ensures
        *final(ch) == spec_update_position(*old(ch), *level, horizontal_released),
{
    ch.position.x = ch.position.x + ch.velocity.x;
    ch.position.y = ch.position.y + ch.velocity.y;
    if ch.velocity.y > 0 && level.is_colliding_top(ch.position) {
        ch.velocity.y = 0;
    }
    if horizontal_released {
        ch.velocity.x = 0;
    }
}

} // verus!
