//! One frame of player control: from the keys seen this frame to the new
//! player state and what the frame loop must do with the body and the clips.
use vstd::prelude::*;

use crate::character::{cycled_left, cycled_right, Character};

verus! {

/// The way the character faces; each has its own animation clip.
#[derive(Clone, Copy, Debug, PartialEq, Eq, Structural)]
pub enum Direction {
    Up,
    Down,
    Left,
    Right,
}

/// Walking speed, 1.5 × 75 world units per second, counted in half units so
/// that it is a whole number.
pub const PLAYER_SPEED_HALVES: i32 = 225;

/// A linear velocity in half world units per second; y grows downwards.
#[derive(Clone, Copy, Debug, PartialEq, Eq, Structural)]
pub struct Velocity {
    pub x: i32,
    pub y: i32,
}

/// The velocity of a character walking in direction `d`.
pub open spec fn walking_velocity(d: Direction) -> Velocity {
    match d {
        Direction::Up => Velocity { x: 0, y: (-PLAYER_SPEED_HALVES) as i32 },
        Direction::Down => Velocity { x: 0, y: PLAYER_SPEED_HALVES },
        Direction::Right => Velocity { x: PLAYER_SPEED_HALVES, y: 0 },
        Direction::Left => Velocity { x: (-PLAYER_SPEED_HALVES) as i32, y: 0 },
    }
}

/// The velocity of a character walking in direction `d`.
pub fn velocity_of(d: Direction) -> (v: Velocity)
    ensures
        v == walking_velocity(d),
{
    match d {
        Direction::Up => Velocity { x: 0, y: -PLAYER_SPEED_HALVES },
        Direction::Down => Velocity { x: 0, y: PLAYER_SPEED_HALVES },
        Direction::Right => Velocity { x: PLAYER_SPEED_HALVES, y: 0 },
        Direction::Left => Velocity { x: -PLAYER_SPEED_HALVES, y: 0 },
    }
}

/// The keyboard as seen in one frame. The bracket keys count only on the
/// frame they go down; the movement keys count on every frame they are held.
#[derive(Clone, Copy, Debug, PartialEq, Eq, Structural)]
pub struct KeyState {
    pub left_bracket_pressed: bool,
    pub right_bracket_pressed: bool,
    pub w_down: bool,
    pub s_down: bool,
    pub d_down: bool,
    pub a_down: bool,
}

/// Whether the movement key for direction `d` is held: W up, S down, D right,
/// A left.
pub open spec fn movement_key_held(keys: KeyState, d: Direction) -> bool {
    match d {
        Direction::Up => keys.w_down,
        Direction::Down => keys.s_down,
        Direction::Right => keys.d_down,
        Direction::Left => keys.a_down,
    }
}

/// `keys` with the movement key for direction `d` released.
pub open spec fn released(keys: KeyState, d: Direction) -> KeyState {
    match d {
        Direction::Up => KeyState { w_down: false, ..keys },
        Direction::Down => KeyState { s_down: false, ..keys },
        Direction::Right => KeyState { d_down: false, ..keys },
        Direction::Left => KeyState { a_down: false, ..keys },
    }
}

/// The place of each movement key in the order in which a frame looks at
/// them: W, S, D, A.
pub open spec fn check_rank(d: Direction) -> int {
    match d {
        Direction::Up => 0,
        Direction::Down => 1,
        Direction::Right => 2,
        Direction::Left => 3,
    }
}

/// The direction of the movement key looked at last among those held, if any
/// is held: the one that decides the frame.
pub open spec fn deciding_direction(keys: KeyState) -> Option<Direction> {
    if keys.a_down {
        Some(Direction::Left)
    } else if keys.d_down {
        Some(Direction::Right)
    } else if keys.s_down {
        Some(Direction::Down)
    } else if keys.w_down {
        Some(Direction::Up)
    } else {
        None
    }
}

/// What the library keeps of a player between frames.
#[derive(Clone, Copy, Debug, PartialEq, Eq, Structural)]
pub struct PlayerState {
    pub character: Character,
    pub direction: Direction,
    pub colliding: bool,
}

impl PlayerState {
    /// A freshly spawned player: first skin of `char_count`, facing down, not
    /// colliding.
    pub fn new(char_count: usize) -> (s: PlayerState)
        ensures
            s == (PlayerState {
                character: Character(0, char_count),
                direction: Direction::Down,
                colliding: false,
            }),
    {
        PlayerState {
            character: Character::new(char_count),
            direction: Direction::Down,
            colliding: false,
        }
    }
}

/// What the frame loop must do after a frame: the velocity to give the
/// player's body, if any (else it keeps its velocity), and which directional
/// clips to advance by the frame's time.
#[derive(Clone, Copy, Debug, PartialEq, Eq, Structural)]
pub struct FrameEffects {
    pub velocity: Option<Velocity>,
    pub advance_up: bool,
    pub advance_down: bool,
    pub advance_right: bool,
    pub advance_left: bool,
}

/// The skin selection after the bracket keys of a frame: left first, then
/// right.
pub open spec fn next_character(c: Character, keys: KeyState) -> Character {
    let after_left = if keys.left_bracket_pressed { cycled_left(c) } else { c };
    if keys.right_bracket_pressed { cycled_right(after_left) } else { after_left }
}

/// The player state after a frame with `keys`.
pub open spec fn next_state(s: PlayerState, keys: KeyState) -> PlayerState {
    PlayerState {
        character: next_character(s.character, keys),
        direction: match deciding_direction(keys) {
            Some(d) => d,
            None => s.direction,
        },
        colliding: s.colliding,
    }
}

/// The effects of a frame with `keys`.
pub open spec fn frame_effects(keys: KeyState) -> FrameEffects {
    FrameEffects {
        velocity: match deciding_direction(keys) {
            Some(d) => Some(walking_velocity(d)),
            None => None,
        },
        advance_up: keys.w_down,
        advance_down: keys.s_down,
        advance_right: keys.d_down,
        advance_left: keys.a_down,
    }
}

/// Runs one frame of player control: updates `state` and says what to do
/// with the body and the animation clips.
pub fn player_frame(state: &mut PlayerState, keys: &KeyState) -> (fx: FrameEffects)
    ensures
        *final(state) == next_state(*old(state), *keys),
        fx == frame_effects(*keys),
{
    if keys.left_bracket_pressed {
        state.character.cycle_left();
    }
    if keys.right_bracket_pressed {
        state.character.cycle_right();
    }
    let mut fx = FrameEffects {
        velocity: None,
        advance_up: false,
        advance_down: false,
        advance_right: false,
        advance_left: false,
    };
    if keys.w_down {
        fx.velocity = Some(velocity_of(Direction::Up));
        state.direction = Direction::Up;
        fx.advance_up = true;
    }
    if keys.s_down {
        fx.velocity = Some(velocity_of(Direction::Down));
        state.direction = Direction::Down;
        fx.advance_down = true;
    }
    if keys.d_down {
        fx.velocity = Some(velocity_of(Direction::Right));
        state.direction = Direction::Right;
        fx.advance_right = true;
    }
    if keys.a_down {
        fx.velocity = Some(velocity_of(Direction::Left));
        state.direction = Direction::Left;
        fx.advance_left = true;
    }
    fx
}

/// Holding exactly one movement key, the one for direction `d`, turns the
/// player to face `d` and gives the body the walking velocity of `d`: W gives
/// (0, -112.5) facing up, S (0, 112.5) facing down, D (112.5, 0) facing right
/// and A (-112.5, 0) facing left, in world units per second.
pub proof fn lemma_single_key_motion(s: PlayerState, keys: KeyState, d: Direction)
    requires
        forall|e: Direction| movement_key_held(keys, e) <==> e == d,
    ensures
        next_state(s, keys).direction == d,
        frame_effects(keys).velocity == Some(walking_velocity(d)),
        d == Direction::Up ==> walking_velocity(d).x == 0 && walking_velocity(d).y == -225,
        d == Direction::Down ==> walking_velocity(d).x == 0 && walking_velocity(d).y == 225,
        d == Direction::Right ==> walking_velocity(d).x == 225 && walking_velocity(d).y == 0,
        d == Direction::Left ==> walking_velocity(d).x == -225 && walking_velocity(d).y == 0,
{
    assert(movement_key_held(keys, Direction::Up) <==> d == Direction::Up);
    assert(movement_key_held(keys, Direction::Down) <==> d == Direction::Down);
    assert(movement_key_held(keys, Direction::Right) <==> d == Direction::Right);
    assert(movement_key_held(keys, Direction::Left) <==> d == Direction::Left);
}

/// Movement keys held together do not combine: the one looked at later in the
/// order W, S, D, A decides. Releasing a key while a later one stays held
/// leaves the frame's facing and velocity as they were; so W and S held
/// together act as S without W.
pub proof fn lemma_later_key_wins(
    s: PlayerState,
    keys: KeyState,
    earlier: Direction,
    later: Direction,
)
    requires
        movement_key_held(keys, later),
        check_rank(earlier) < check_rank(later),
    ensures
        next_state(s, released(keys, earlier)).direction == next_state(s, keys).direction,
        frame_effects(released(keys, earlier)).velocity == frame_effects(keys).velocity,
{
}

} // verus!
