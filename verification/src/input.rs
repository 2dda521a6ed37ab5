//! Keyboard input: which key was pressed or released, and what one
//! such event does to the player.

use vstd::prelude::*;
use crate::player::Direction;
use crate::player::Player;
use crate::player::PLAYER_MOVEMENT_SPEED;
use crate::player::active_of;

verus! {

/// The keys the game reacts to. Every other key is `Other`.
#[derive(Clone, Copy, Debug, PartialEq, Eq, Structural)]
pub enum Key {
    Escape,
    Left,
    Right,
    Up,
    Down,
    Other,
}

/// One event handed in by the surrounding application's event pump.
/// `repeat` marks a key event generated by the keyboard's auto-repeat.
#[derive(Clone, Copy, Debug, PartialEq, Eq, Structural)]
pub enum InputEvent {
    Quit,
    KeyDown { key: Key, repeat: bool },
    KeyUp { key: Key, repeat: bool },
    Other,
}

/// The walking direction a key stands for, if it is a direction key.
pub open spec fn key_direction(key: Key) -> Option<Direction> {
    match key {
        Key::Left => Some(Direction::Left),
        Key::Right => Some(Direction::Right),
        Key::Up => Some(Direction::Up),
        Key::Down => Some(Direction::Down),
        _ => None,
    }
}

/// Whether the event asks the game to stop: closing the window or
/// pressing Escape.
pub open spec fn is_quit_event(event: InputEvent) -> bool {
    ||| event is Quit
    ||| (event matches InputEvent::KeyDown { key, .. } && key is Escape)
}

/// The direction freshly pressed by this event, if it is a
/// non-repeated press of a direction key.
pub open spec fn pressed_direction(event: InputEvent) -> Option<Direction> {
    match event {
        InputEvent::KeyDown { key, repeat } => if !repeat {
            key_direction(key)
        } else {
            None
        },
        _ => None,
    }
}

/// Whether this event is a non-repeated release of a direction key.
pub open spec fn is_release_event(event: InputEvent) -> bool {
    match event {
        InputEvent::KeyUp { key, repeat } => !repeat && key_direction(key) is Some,
        _ => false,
    }
}

/// The held-direction history after a direction key is pressed: the
/// new direction goes on top and becomes active.
pub open spec fn directions_after_press(held: Seq<Direction>, d: Direction) -> Seq<Direction> {
    held.push(d)
}

/// The held-direction history after a direction key is released: the
/// most recent direction comes off, and the one below it, if any,
/// becomes active again.
pub open spec fn directions_after_release(held: Seq<Direction>) -> Seq<Direction> {
    if held.len() == 0 {
        held
    } else {
        held.drop_last()
    }
}

/// The speed after a direction key is released: zero once no
/// direction key is held any more, else unchanged.
pub open spec fn speed_after_release(held: Seq<Direction>, speed: i32) -> int {
    if directions_after_release(held).len() == 0 {
        0
    } else {
        speed as int
    }
}

/// Records a fresh press of a direction key: the player starts (or
/// keeps) moving, and the pressed direction becomes the active one.
pub fn press_direction(player: &mut Player, d: Direction)
    requires
        old(player).wf(),
    ensures
        final(player).wf(),
        final(player).direction@ == directions_after_press(old(player).direction@, d),
        final(player).speed == PLAYER_MOVEMENT_SPEED,
        final(player).spec_active_direction() == Some(d),
        final(player).position == old(player).position,
        final(player).sprite == old(player).sprite,
        final(player).current_frame == old(player).current_frame,
{
    player.speed = PLAYER_MOVEMENT_SPEED;
    player.direction.push_back(d);
}

/// Records the release of a direction key: the most recent direction
/// comes off the history, and the player stops once none is left.
pub fn release_direction(player: &mut Player)
    requires
        old(player).wf(),
    ensures
        final(player).wf(),
        final(player).direction@ == directions_after_release(old(player).direction@),
        final(player).speed == speed_after_release(old(player).direction@, old(player).speed),
        final(player).position == old(player).position,
        final(player).sprite == old(player).sprite,
        final(player).current_frame == old(player).current_frame,
{
    player.direction.pop_back();
    if player.direction.len() == 0 {
        player.speed = 0;
    }
}

/// Applies one input event to the player, exactly as the game loop
/// reacts to it: a non-repeated press of a direction key starts the
/// player moving that way, a non-repeated release of a direction key
/// returns to the previously pressed direction or stops the player,
/// and every other event leaves the player alone. Returns whether the
/// event asks the game to quit.
pub fn handle_event(player: &mut Player, event: InputEvent) -> (quit: bool)
    requires
        old(player).wf(),
    ensures
        final(player).wf(),
        quit == is_quit_event(event),
        final(player).position == old(player).position,
        final(player).sprite == old(player).sprite,
        final(player).current_frame == old(player).current_frame,
        (match pressed_direction(event) {
            Some(d) => {
                &&& final(player).direction@ == directions_after_press(old(player).direction@, d)
                &&& final(player).speed == PLAYER_MOVEMENT_SPEED
            },
            None => if is_release_event(event) {
                &&& final(player).direction@ == directions_after_release(old(player).direction@)
                &&& final(player).speed
                    == speed_after_release(old(player).direction@, old(player).speed)
            } else {
                &&& final(player).direction@ == old(player).direction@
                &&& final(player).speed == old(player).speed
            },
        }),
{
    match event {
        InputEvent::Quit => true,
        InputEvent::KeyDown { key: Key::Escape, repeat: _ } => true,
        InputEvent::KeyDown { key: Key::Left, repeat: false } => {
            press_direction(player, Direction::Left);
            false
        },
        InputEvent::KeyDown { key: Key::Right, repeat: false } => {
            press_direction(player, Direction::Right);
            false
        },
        InputEvent::KeyDown { key: Key::Up, repeat: false } => {
            press_direction(player, Direction::Up);
            false
        },
        InputEvent::KeyDown { key: Key::Down, repeat: false } => {
            press_direction(player, Direction::Down);
            false
        },
        InputEvent::KeyUp { key: Key::Left, repeat: false } => {
            release_direction(player);
            false
        },
        InputEvent::KeyUp { key: Key::Right, repeat: false } => {
            release_direction(player);
            false
        },
        InputEvent::KeyUp { key: Key::Up, repeat: false } => {
            release_direction(player);
            false
        },
        InputEvent::KeyUp { key: Key::Down, repeat: false } => {
            release_direction(player);
            false
        },
        _ => false,
    }
}

/// Law: releasing a direction key right after pressing one undoes the
/// press. The held-direction history, and with it the active
/// direction, is exactly what it was before the press.
pub proof fn lemma_release_restores_previous(held: Seq<Direction>, d: Direction)
    ensures
        directions_after_release(directions_after_press(held, d)) == held,
        active_of(directions_after_release(directions_after_press(held, d))) == active_of(held),
{
    assert(directions_after_press(held, d).drop_last() =~= held);
}

} // verus!
