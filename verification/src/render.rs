//! The arithmetic behind a frame: which cell of the sprite sheet to
//! draw, and where on the screen it lands. The drawing itself is done
//! by the surrounding application with the rectangles computed here.

use vstd::prelude::*;
use crate::geom::Point;
use crate::geom::SpriteRect;
use crate::player::ANIMATION_FRAME_COUNT;
use crate::player::Direction;
use crate::player::Player;

verus! {

/// The sprite sheet holds one walking animation per row, in this
/// order: walking down, left, right, and up. A player standing still
/// (no direction) shows the walking-down row.
pub open spec fn spec_direction_row(direction: Option<Direction>) -> int {
    match direction {
        Some(Direction::Up) => 3,
        Some(Direction::Down) => 0,
        Some(Direction::Left) => 1,
        Some(Direction::Right) => 2,
        None => 0,
    }
}

/// A direction option with the reference inside it dropped.
pub open spec fn copied_direction(direction: Option<&Direction>) -> Option<Direction> {
    match direction {
        Some(d) => Some(*d),
        None => None,
    }
}

/// Returns the row of the spritesheet corresponding to the given direction.
pub fn direction_spritesheet_row(direction: Option<&Direction>) -> (row: i32)
    ensures
        row == spec_direction_row(copied_direction(direction)),
{
    match direction {
        Some(d) => match *d {
            Direction::Up => 3,
            Direction::Down => 0,
            Direction::Left => 1,
            Direction::Right => 2,
        },
        None => 0,
    }
}

/// The cell of the sprite sheet to draw this tick: the column is the
/// current animation frame, the row belongs to the active direction.
pub fn frame_source_rect(player: &Player) -> (r: SpriteRect)
    requires
        player.wf(),
        player.sprite.width * (ANIMATION_FRAME_COUNT - 1) <= i32::MAX,
        player.sprite.height * spec_direction_row(Some(Direction::Up)) <= i32::MAX,
        player.sprite.x + player.sprite.width * (ANIMATION_FRAME_COUNT - 1) <= i32::MAX,
        player.sprite.y + player.sprite.height * spec_direction_row(Some(Direction::Up))
            <= i32::MAX,
    ensures
        r.x == player.sprite.x + player.sprite.width * player.current_frame,
        r.y == player.sprite.y
            + player.sprite.height * spec_direction_row(player.spec_active_direction()),
        r.width == player.sprite.width,
        r.height == player.sprite.height,
{
    let row = direction_spritesheet_row(player.active_direction().as_ref());
    proof {
        assert(player.sprite.width <= i32::MAX) by (nonlinear_arith)
            requires
                player.sprite.width * (ANIMATION_FRAME_COUNT - 1) <= i32::MAX,
                ANIMATION_FRAME_COUNT == 3,
                player.sprite.width >= 0,
        ;
        assert(player.sprite.height <= i32::MAX) by (nonlinear_arith)
            requires
                player.sprite.height * spec_direction_row(Some(Direction::Up)) <= i32::MAX,
                player.sprite.height >= 0,
        ;
        assert(player.sprite.width * player.current_frame
            <= player.sprite.width * (ANIMATION_FRAME_COUNT - 1)) by (nonlinear_arith)
            requires
                0 <= player.current_frame <= ANIMATION_FRAME_COUNT - 1,
                player.sprite.width >= 0,
        ;
        assert(player.sprite.height * row
            <= player.sprite.height * spec_direction_row(Some(Direction::Up)))
            by (nonlinear_arith)
            requires
                0 <= row <= spec_direction_row(Some(Direction::Up)),
                player.sprite.height >= 0,
        ;
        assert(player.sprite.width * player.current_frame >= 0) by (nonlinear_arith)
            requires
                player.current_frame >= 0,
                player.sprite.width >= 0,
        ;
        assert(player.sprite.height * row >= 0) by (nonlinear_arith)
            requires
                row >= 0,
                player.sprite.height >= 0,
        ;
    }
    SpriteRect::new(
        player.sprite.x + (player.sprite.width as i32) * player.current_frame,
        player.sprite.y + (player.sprite.height as i32) * row,
        player.sprite.width,
        player.sprite.height,
    )
}

/// Where the frame lands on the screen: the centre of the window is
/// treated as the origin of the player's coordinates, and the sprite
/// is centred on the player's position.
pub fn screen_dest_rect(player: &Player, window_width: u32, window_height: u32) -> (r: SpriteRect)
    requires
        window_width / 2 <= i32::MAX,
        window_height / 2 <= i32::MAX,
        player.position.x + window_width / 2 <= i32::MAX,
        player.position.y + window_height / 2 <= i32::MAX,
        i32::MIN <= player.position.x + window_width / 2 - player.sprite.width / 2,
        i32::MIN <= player.position.y + window_height / 2 - player.sprite.height / 2,
        player.sprite.width / 2 <= i32::MAX,
        player.sprite.height / 2 <= i32::MAX,
    ensures
        r.x == player.position.x + window_width / 2 - player.sprite.width / 2,
        r.y == player.position.y + window_height / 2 - player.sprite.height / 2,
        r.width == player.sprite.width,
        r.height == player.sprite.height,
{
    let center: Point = player.position.offset(
        (window_width / 2) as i32,
        (window_height / 2) as i32,
    );
    SpriteRect::from_center(center, player.sprite.width, player.sprite.height)
}

} // verus!
