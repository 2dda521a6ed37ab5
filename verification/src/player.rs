//! The player: a position, a sprite-sheet cell, a walking speed, an
//! animation frame, and the history of direction keys still held.

use vstd::prelude::*;
use std::collections::VecDeque;
use crate::geom::Point;
use crate::geom::SpriteRect;

verus! {

/// How many pixels the player moves per update tick while a direction
/// key is held.
pub const PLAYER_MOVEMENT_SPEED: i32 = 15;

/// Every walking animation in the sprite sheet has this many frames.
pub const ANIMATION_FRAME_COUNT: i32 = 3;

/// Width in pixels of one sprite-sheet cell.
pub const PLAYER_SPRITE_WIDTH: u32 = 26;

/// Height in pixels of one sprite-sheet cell.
pub const PLAYER_SPRITE_HEIGHT: u32 = 36;

/// One of the four directions the player can walk in.
#[derive(Clone, Copy, Debug, PartialEq, Eq, Structural)]
pub enum Direction {
    Up,
    Down,
    Left,
    Right,
}

/// The direction that counts as active for a held-direction history:
/// the most recently pressed key that is still held, if any.
pub open spec fn active_of(held: Seq<Direction>) -> Option<Direction> {
    if held.len() == 0 {
        None
    } else {
        Some(held.last())
    }
}

/// How far one update tick moves the player horizontally.
pub open spec fn direction_dx(d: Option<Direction>, speed: i32) -> int {
    match d {
        Some(Direction::Left) => -(speed as int),
        Some(Direction::Right) => speed as int,
        _ => 0,
    }
}

/// How far one update tick moves the player vertically.
pub open spec fn direction_dy(d: Option<Direction>, speed: i32) -> int {
    match d {
        Some(Direction::Up) => -(speed as int),
        Some(Direction::Down) => speed as int,
        _ => 0,
    }
}

/// The animation frame after one update tick: the frame advances
/// cyclically while the player is moving and freezes while it stands.
pub open spec fn next_frame(frame: i32, speed: i32) -> int {
    if speed != 0 {
        (frame + 1) % (ANIMATION_FRAME_COUNT as int)
    } else {
        frame as int
    }
}

pub struct Player {
    pub position: Point,
    pub sprite: SpriteRect,
    pub speed: i32,
    pub current_frame: i32,
    pub direction: VecDeque<Direction>,
}

impl Player {
    /// The direction the player is currently walking, if any.
    pub open spec fn spec_active_direction(self) -> Option<Direction> {
        active_of(self.direction@)
    }

    /// The player's invariant: the speed is nonzero exactly while some
    /// direction key is held, the speed is either zero or the movement
    /// constant, and the animation frame stays inside the sheet.
    pub open spec fn wf(self) -> bool {
        &&& self.speed == 0 <==> self.direction@.len() == 0
        &&& self.speed == 0 || self.speed == PLAYER_MOVEMENT_SPEED
        &&& 0 <= self.current_frame < ANIMATION_FRAME_COUNT
    }

    /// A freshly spawned player: standing still at the origin, showing
    /// the first frame of the first sprite-sheet cell.
    pub fn new() -> (p: Player)
        ensures
            p.wf(),
            p.position == (Point { x: 0, y: 0 }),
            p.sprite == (SpriteRect {
                x: 0,
                y: 0,
                width: PLAYER_SPRITE_WIDTH,
                height: PLAYER_SPRITE_HEIGHT,
            }),
            p.speed == 0,
            p.current_frame == 0,
            p.direction@ == Seq::<Direction>::empty(),
    {
        Player {
            position: Point::new(0, 0),
            sprite: SpriteRect::new(0, 0, PLAYER_SPRITE_WIDTH, PLAYER_SPRITE_HEIGHT),
            speed: 0,
            current_frame: 0,
            direction: VecDeque::new(),
        }
    }

    /// The direction the player is currently walking, if any.
    pub fn active_direction(&self) -> (d: Option<Direction>)
        ensures
            d == self.spec_active_direction(),
    {
        if self.direction.len() == 0 {
            None
        } else {
            Some(self.direction[self.direction.len() - 1])
        }
    }
}

/// Moves the player one tick: by its speed along the axis of the
/// active direction, and advances the walking animation by one frame
/// while the player is moving.
pub fn update_player(player: &mut Player)
    requires
        old(player).wf(),
        (match old(player).spec_active_direction() {
            Some(Direction::Left) => i32::MIN <= old(player).position.x - old(player).speed,
            Some(Direction::Right) => old(player).position.x + old(player).speed <= i32::MAX,
            Some(Direction::Up) => i32::MIN <= old(player).position.y - old(player).speed,
            Some(Direction::Down) => old(player).position.y + old(player).speed <= i32::MAX,
            None => true,
        }),
    ensures
        final(player).wf(),
        final(player).speed == old(player).speed,
        final(player).sprite == old(player).sprite,
        final(player).direction@ == old(player).direction@,
        final(player).position.x == old(player).position.x
            + direction_dx(old(player).spec_active_direction(), old(player).speed),
        final(player).position.y == old(player).position.y
            + direction_dy(old(player).spec_active_direction(), old(player).speed),
        final(player).current_frame
            == next_frame(old(player).current_frame, old(player).speed),
{
    match player.active_direction() {
        Some(Direction::Left) => {
            player.position = player.position.offset(-player.speed, 0);
        },
        Some(Direction::Right) => {
            player.position = player.position.offset(player.speed, 0);
        },
        Some(Direction::Up) => {
            player.position = player.position.offset(0, -player.speed);
        },
        Some(Direction::Down) => {
            player.position = player.position.offset(0, player.speed);
        },
        None => {},
    }

    if player.speed != 0 {
        player.current_frame = (player.current_frame + 1) % ANIMATION_FRAME_COUNT;
    }
}

} // verus!
