//! Game progress: the `Loading -> Level -> {Won, Dead}` state machine and
//! the per-tick simulation step that drives it.
//!
//! A tick runs in a fixed order: horizontal resolution (right, then left),
//! gravity and grounding (which also decides a fall death), the jump
//! impulse, position integration with the post-move ceiling clamp, and
//! finally the state transition — a fall death this tick wins over a key
//! pickup, and `Won` and `Dead` are terminal.

use vstd::prelude::*;

use crate::character::Character;
use crate::character::FALL_DEATH_THRESHOLD;
use crate::character::InputState;
use crate::character::gravity;
use crate::character::jump;
use crate::character::move_left;
use crate::character::move_right;
use crate::character::spec_gravity;
use crate::character::spec_grounded;
use crate::character::spec_jump;
use crate::character::spec_move_left;
use crate::character::spec_move_right;
use crate::character::spec_update_position;
use crate::character::update_position;
use crate::level::Level;

verus! {

/// The game's progress. `Loading` waits for a level asset; `Level` runs the
/// simulation; `Won` and `Dead` are terminal.
#[derive(Clone, Copy, PartialEq, Eq, Structural, Debug)]
pub enum AppState {
    Loading,
    Level,
    Won,
    Dead,
}

/// The whole simulation context: progress state, the single character, and
/// the loaded level, if any. Exactly one writer (the tick) mutates it.
#[derive(Clone, Debug)]
pub struct Simulation {
    pub state: AppState,
    pub character: Character,
    pub level: Option<Level>,
}

/// The character after horizontal resolution: rightward, then leftward.
pub open spec fn spec_after_horizontal(ch: Character, level: Level, input: InputState) -> Character {
    spec_move_left(spec_move_right(ch, level, input.right_held), level, input.left_held)
}

/// The character at the end of a tick, and whether the tick's grounding
/// check found it landing a lethal fall.
pub open spec fn spec_tick_character(ch: Character, level: Level, input: InputState) -> (
    Character,
    bool,
) {
    let resolved = spec_after_horizontal(ch, level, input);
    let (fallen, died) = spec_gravity(resolved, level);
    let jumped = spec_jump(fallen, level, input.jump_pressed);
    (spec_update_position(jumped, level, input.horizontal_released), died)
}

/// One simulation tick. Outside the `Level` state, or without a loaded
/// level, a tick changes nothing; inside it, the character advances and the
/// state moves to `Dead` on a lethal landing, else to `Won` when the
/// post-move probe region holds a key tile, else stays `Level`.
pub open spec fn spec_tick(sim: Simulation, input: InputState) -> Simulation {
    if sim.state == AppState::Level && sim.level is Some {
        let level = sim.level->0;
        let (ch, died) = spec_tick_character(sim.character, level, input);
        let state = if died {
            AppState::Dead
        } else if level.spec_key_in_probe(ch.position.x as int, ch.position.y as int) {
            AppState::Won
        } else {
            AppState::Level
        };
        Simulation { state, character: ch, level: sim.level }
    } else {
        sim
    }
}

/// Horizontal velocity never takes an intermediate value: a tick maps a
/// character whose horizontal velocity is one of `-MOVE_SPEED`, `0`,
/// `+MOVE_SPEED` to one whose horizontal velocity again is, whatever the
/// input, the level, and the rest of the state.
pub proof fn lemma_horizontal_velocity_discrete(sim: Simulation, input: InputState)
    requires
        sim.character.vx_valid(),
    ensures
        spec_tick(sim, input).character.vx_valid(),
{
}

/// Landing decides death by the threshold, exactly: in a tick whose
/// grounding check finds the character grounded, the state becomes `Dead`
/// if and only if the fall distance accumulated up to the tick before had
/// reached `FALL_DEATH_THRESHOLD` — one unit below it, the character
/// survives.
pub proof fn lemma_fall_death_threshold(sim: Simulation, input: InputState)
    requires
        sim.state == AppState::Level,
        sim.level is Some,
        spec_grounded(spec_after_horizontal(sim.character, sim.level->0, input), sim.level->0),
    ensures
        spec_tick(sim, input).state == AppState::Dead <==> sim.character.fall.distance
            >= FALL_DEATH_THRESHOLD,
{
}

/// A key tile inside the character's post-move 2x2 probe region wins the
/// tick, whenever the same tick's landing was not lethal.
pub proof fn lemma_key_in_probe_wins(sim: Simulation, input: InputState)
    requires
        sim.state == AppState::Level,
        sim.level is Some,
        !spec_tick_character(sim.character, sim.level->0, input).1,
        ({
            let ch = spec_tick_character(sim.character, sim.level->0, input).0;
            sim.level->0.spec_key_in_probe(ch.position.x as int, ch.position.y as int)
        }),
    ensures
        spec_tick(sim, input).state == AppState::Won,
{
}

/// `Won` and `Dead` are terminal: a tick in either state changes nothing,
/// so once the game is won no later tick can reach `Dead`, and the other
/// way round.
pub proof fn lemma_terminal_states(sim: Simulation, input: InputState)
    requires
        sim.state == AppState::Won || sim.state == AppState::Dead,
    ensures
        spec_tick(sim, input) == sim,
{
}

/// The simulation after a whole sequence of ticks, one per input snapshot,
/// in order.
pub open spec fn spec_run(sim: Simulation, inputs: Seq<InputState>) -> Simulation
    decreases inputs.len(),
{
    if inputs.len() == 0 {
        sim
    } else {
        spec_run(spec_tick(sim, inputs[0]), inputs.skip(1))
    }
}

/// Terminal-state exclusivity over whole sessions: once the game is `Won`
/// or `Dead`, no sequence of further ticks changes anything — in
/// particular, `Dead` is unreachable from `Won`, and the other way round.
pub proof fn lemma_terminal_states_stay(sim: Simulation, inputs: Seq<InputState>)
    requires
        sim.state == AppState::Won || sim.state == AppState::Dead,
    ensures
        spec_run(sim, inputs) == sim,
    decreases inputs.len(),
{
    if inputs.len() > 0 {
        lemma_terminal_states(sim, inputs[0]);
        lemma_terminal_states_stay(sim, inputs.skip(1));
    }
}

impl Simulation {
    /// Structural soundness kept by every operation: the horizontal
    /// velocity is one of its three values, the fall distance is a
    /// magnitude, a loaded level is well formed, and the `Level` state
    /// implies a level is loaded.
    pub open spec fn wf(&self) -> bool {
        &&& self.character.vx_valid()
        &&& self.character.fall.distance >= 0
        &&& (self.level is Some ==> self.level->0.wf())
        &&& (self.state == AppState::Level ==> self.level is Some)
    }

    /// A fresh session: loading, no level yet, the character at rest at
    /// the origin.
    pub fn new() -> (s: Simulation)
        ensures
            s.state == AppState::Loading,
            s.level is None,
            s.character == (Character {
                position: crate::level::ScreenPos { x: 0, y: 0 },
                velocity: crate::character::Velocity { x: 0, y: 0 },
                fall: crate::character::Fall { distance: 0 },
            }),
            s.wf(),
    {
        Simulation { state: AppState::Loading, character: Character::new(), level: None }
    }

    /// Install a freshly loaded level: the character is re-homed to the
    /// level's start tile (velocity and fall tracker untouched) and the
    /// state moves from `Loading` to `Level`.
    pub fn on_level_loaded(&mut self, level: Level)
        requires
            old(self).state == AppState::Loading,
            old(self).wf(),
            level.wf(),
            old(self).character.in_sim_range(),
        ensures
            final(self).state == AppState::Level,
            final(self).level == Some(level),
            final(self).character.position.x as int == crate::level::spec_tile_to_screen_x(
                level.start_tile.x as int,
                level.size.width as int,
            ),
            final(self).character.position.y as int == crate::level::spec_tile_to_screen_y(
                level.start_tile.y as int,
                level.size.height as int,
            ),
            final(self).character.velocity == old(self).character.velocity,
            final(self).character.fall == old(self).character.fall,
            final(self).wf(),
            final(self).character.in_sim_range(),
    {
        let start = level.get_start_tile_screen_pos();
        self.character.position = start;
        self.level = Some(level);
        self.state = AppState::Level;
    }

    /// Run one simulation tick on the given input snapshot.
    pub fn tick(&mut self, input: InputState)
        requires
            old(self).wf(),
            old(self).character.in_sim_range(),
        ensures
            *final(self) == spec_tick(*old(self), input),
            final(self).wf(),
    {
        if !(self.state == AppState::Level) {
            return ;
        }
        let level = match &self.level {
            Some(level) => level,
            None => { return ; },
        };
        move_right(&mut self.character, level, input.right_held);
        move_left(&mut self.character, level, input.left_held);
        let died = gravity(&mut self.character, level);
        jump(&mut self.character, level, input.jump_pressed);
        update_position(&mut self.character, level, input.horizontal_released);
        if died {
            self.state = AppState::Dead;
        } else if level.colliding_key(self.character.position) {
            self.state = AppState::Won;
        }
    }
}

} // verus!
