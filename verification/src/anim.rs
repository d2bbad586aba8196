//! Animation-facing read-outs of the committed state: which sprite set to
//! present, how a looping sprite index advances, and how the parallax
//! background follows the player.
//!
//! The renderer itself is an external collaborator; it supplies the frame
//! counts and the per-layer parallax shift and presents what these functions
//! decide.

use vstd::prelude::*;

use crate::player::{Player, WORLD_LIMIT};

verus! {

/// The sprite sets the renderer can present. Which one a tick selects is a
/// function of velocity and grab state alone.
#[derive(Clone, Copy, Debug, PartialEq, Eq, Structural)]
pub enum AnimState {
    Idle,
    Run,
    Jump,
    Land,
    Grab,
}

/// The selection policy: grabbing wins over vertical motion, vertical motion
/// over the run-or-idle choice.
pub open spec fn anim_of(vx: int, vy: int, is_grabbing: bool) -> AnimState {
    if is_grabbing {
        AnimState::Grab
    } else if vy < 0 {
        AnimState::Land
    } else if vy > 0 {
        AnimState::Jump
    } else if vx != 0 {
        AnimState::Run
    } else {
        AnimState::Idle
    }
}

/// Selects the sprite set for the player's committed state.
pub fn select_animation(p: &Player) -> (a: AnimState)
    ensures
        a == anim_of(p.vx as int, p.vy as int, p.is_grabbing),
{
    if p.is_grabbing {
        AnimState::Grab
    } else if p.vy < 0 {
        AnimState::Land
    } else if p.vy > 0 {
        AnimState::Jump
    } else if p.vx != 0 {
        AnimState::Run
    } else {
        AnimState::Idle
    }
}

/// The grab pose's final frame; a grabbing player holds on it instead of
/// looping.
pub const GRAB_HOLD_FRAME: u32 = 5;

/// Advances a looping sprite index by one frame, wrapping at the frame
/// count, except that a grabbing player holds on the grab pose's final
/// frame.
pub fn advance_frame(index: u32, frame_count: u32, is_grabbing: bool) -> (r: u32)
    requires
        1 <= frame_count,
        index < u32::MAX,
    ensures
        r == if is_grabbing && index == GRAB_HOLD_FRAME {
            index as int
        } else {
            (index + 1) % (frame_count as int)
        },
{
    if is_grabbing && index == GRAB_HOLD_FRAME {
        index
    } else {
        (index + 1) % frame_count
    }
}

/// Where a parallax layer stands after one tick: it moves by the given
/// shift, and when the player stands more than a viewport width ahead of or
/// behind where the layer stood, the layer leaps two widths toward the
/// player — its position wraps modulo twice the viewport width.
pub open spec fn scrolled(bg_x: int, player_x: int, shift: int, width: int) -> int {
    let moved = bg_x + shift;
    if player_x - bg_x > width {
        moved + 2 * width
    } else if player_x - bg_x < -width {
        moved - 2 * width
    } else {
        moved
    }
}

/// One tick of parallax scrolling for one background layer. The shift is the
/// layer's parallax fraction of the player's horizontal velocity, computed
/// by the caller.
pub fn scroll_background(bg_x: i64, player_x: i64, shift: i64, width: i64) -> (r: i64)
    requires
        -WORLD_LIMIT <= bg_x <= WORLD_LIMIT,
        -WORLD_LIMIT <= player_x <= WORLD_LIMIT,
        -WORLD_LIMIT <= shift <= WORLD_LIMIT,
        0 <= width <= WORLD_LIMIT,
    ensures
        r == scrolled(bg_x as int, player_x as int, shift as int, width as int),
{
    let moved = bg_x + shift;
    if player_x - bg_x > width {
        moved + 2 * width
    } else if player_x - bg_x < -width {
        moved - 2 * width
    } else {
        moved
    }
}

} // verus!
