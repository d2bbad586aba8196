use jungle::player::{gameover, step_player, Constants, Input, Player};
use jungle::rect::Rect;

fn rect(x: i64, y: i64, half_w: i64, half_h: i64) -> Rect {
    Rect { x, y, half_w, half_h }
}

fn player_at(x: i64, y: i64, vx: i64, vy: i64) -> Player {
    Player {
        x,
        y,
        half_w: 10,
        half_h: 15,
        vx,
        vy,
        spawn_x: x,
        spawn_y: y,
        is_grabbing: false,
        is_in_air: true,
    }
}

fn idle() -> Input {
    Input { left: false, right: false, up: false, left_released: false, right_released: false }
}

fn tuning() -> Constants {
    Constants { gravity: 2, horizontal_speed: 8, jump_speed: 9 }
}

#[test]
fn landing_on_block_tick() {
    // Player at (0,100), size 20 by 30, falling at 5 per tick; block at
    // (0,85), size 20 by 10, top edge at 90. The proposed height 95 sinks
    // into the block, and the player comes to rest with its bottom edge on
    // the block's top: y = 105.
    let p = player_at(0, 100, 0, -5);
    let blocks = vec![rect(0, 85, 10, 5)];
    let r = step_player(&p, idle(), 0, &tuning(), &blocks, &vec![]);
    assert_eq!(r.y, 105);
    assert_eq!(r.x, 0);
    assert_eq!(r.vy, 0);
    assert!(!r.is_in_air);
}

#[test]
fn rest_on_block_converges() {
    // Falling from above the same block: over successive ticks the player
    // lands, rests with zero vertical velocity, grounded, and never sinks
    // below the block's top edge.
    let block = rect(0, 85, 10, 5);
    let block_top = block.y + block.half_h;
    let blocks = vec![block];
    let mut p = player_at(0, 130, 0, 0);
    for _ in 0..10 {
        p = step_player(&p, idle(), 1, &tuning(), &blocks, &vec![]);
        assert!(p.y - p.half_h >= block_top);
    }
    assert_eq!(p.y, 105);
    assert_eq!(p.vy, 0);
    assert!(!p.is_in_air);
    // Resting is a fixed point, whatever the tick length.
    let again = step_player(&p, idle(), 7, &tuning(), &blocks, &vec![]);
    assert_eq!(again.y, 105);
    assert_eq!(again.vy, 0);
    assert!(!again.is_in_air);
}

#[test]
fn hook_no_grab_when_not_falling() {
    // Hook 6 units below, in contact, but the player moves horizontally and
    // not downward: no grab.
    let mut p = player_at(0, 0, 8, 0);
    p.is_in_air = false;
    let hooks = vec![rect(0, -6, 5, 5)];
    let c = Constants { gravity: 0, horizontal_speed: 8, jump_speed: 9 };
    let r = step_player(&p, idle(), 1, &c, &vec![], &hooks);
    assert!(!r.is_grabbing);
}

#[test]
fn hook_grab_when_falling() {
    // Same hook, 6 units below, and the player is falling: the grab engages,
    // vertical velocity is forced to zero and the height snaps to hang from
    // the hook (player's top edge on the hook's top edge).
    let p = player_at(0, 0, 0, -3);
    let hook = rect(0, -6, 5, 5);
    let r = step_player(&p, idle(), 0, &tuning(), &vec![], &vec![hook]);
    assert!(r.is_grabbing);
    assert_eq!(r.vy, 0);
    assert_eq!(r.y, hook.y + hook.half_h - p.half_h);
}

#[test]
fn hook_too_far_never_grabs() {
    // Vertical center-distance 9 exceeds the grab distance: falling past the
    // hook in contact, the player does not grab.
    let p = player_at(0, 0, 0, -3);
    let hooks = vec![rect(0, -9, 5, 8)];
    let r = step_player(&p, idle(), 0, &tuning(), &vec![], &hooks);
    assert!(!r.is_grabbing);
}

#[test]
fn hook_within_distance_grabs() {
    // Vertical center-distance 7 is under the grab distance.
    let p = player_at(0, 0, 0, -3);
    let hooks = vec![rect(0, -7, 5, 5)];
    let r = step_player(&p, idle(), 0, &tuning(), &vec![], &hooks);
    assert!(r.is_grabbing);
}

#[test]
fn grab_freezes_gravity_across_ticks() {
    // While the grab holds, vertical velocity stays exactly zero, whatever
    // the tick length is.
    let mut p = player_at(0, 0, 0, 0);
    p.is_grabbing = true;
    for dt in [1, 10, 100] {
        p = step_player(&p, idle(), dt, &tuning(), &vec![], &vec![]);
        assert!(p.is_grabbing);
        assert_eq!(p.vy, 0);
        assert_eq!(p.y, 0);
    }
}

#[test]
fn jump_releases_grab() {
    // Jumping is the one path off a hook: the impulse is applied, gravity is
    // still suspended this tick, and the upward motion releases the grab.
    let mut p = player_at(0, 0, 0, 0);
    p.is_grabbing = true;
    let up = Input { up: true, ..idle() };
    let r = step_player(&p, up, 1, &tuning(), &vec![], &vec![]);
    assert_eq!(r.vy, 9);
    assert!(!r.is_grabbing);
    assert!(r.is_in_air);
}

#[test]
fn jump_needs_ground_or_hook() {
    // Airborne and not grabbing: holding "up" does nothing.
    let p = player_at(0, 0, 0, -2);
    let up = Input { up: true, ..idle() };
    let c = Constants { gravity: 0, horizontal_speed: 8, jump_speed: 9 };
    let r = step_player(&p, up, 1, &c, &vec![], &vec![]);
    assert_eq!(r.vy, -2);
}

#[test]
fn held_keys_set_running_speed() {
    let mut p = player_at(0, 0, 0, 0);
    p.is_in_air = false;
    let c = Constants { gravity: 0, horizontal_speed: 8, jump_speed: 9 };
    let right = Input { right: true, ..idle() };
    let r = step_player(&p, right, 1, &c, &vec![], &vec![]);
    assert_eq!(r.vx, 8);
    assert_eq!(r.x, 8);
    let left = Input { left: true, ..idle() };
    let l = step_player(&p, left, 1, &c, &vec![], &vec![]);
    assert_eq!(l.vx, -8);
    assert_eq!(l.x, -8);
    // Left wins when both directions are held.
    let both = Input { left: true, right: true, ..idle() };
    let b = step_player(&p, both, 1, &c, &vec![], &vec![]);
    assert_eq!(b.vx, -8);
}

#[test]
fn releasing_the_held_key_stops_the_run() {
    let mut p = player_at(0, 0, 8, 0);
    p.is_in_air = false;
    let c = Constants { gravity: 0, horizontal_speed: 8, jump_speed: 9 };
    let release = Input { right_released: true, ..idle() };
    let r = step_player(&p, release, 1, &c, &vec![], &vec![]);
    assert_eq!(r.vx, 0);
    assert_eq!(r.x, 0);
    // A release while the other direction is held keeps the run.
    let switch = Input { left: true, right_released: true, ..idle() };
    let s = step_player(&p, switch, 1, &c, &vec![], &vec![]);
    assert_eq!(s.vx, -8);
}

#[test]
fn wall_stops_horizontal_motion() {
    // Running right into a wall: the horizontal axis is corrected to edge
    // contact and the horizontal velocity is zeroed; height is untouched.
    let mut p = player_at(0, 0, 8, 0);
    p.is_in_air = false;
    let c = Constants { gravity: 0, horizontal_speed: 8, jump_speed: 9 };
    let wall = rect(20, 0, 5, 15);
    let right = Input { right: true, ..idle() };
    let r = step_player(&p, right, 1, &c, &vec![wall], &vec![]);
    assert_eq!(r.x, 5);
    assert_eq!(r.vx, 0);
    assert_eq!(r.y, 0);
}

#[test]
fn fatal_fall_resets_to_spawn() {
    let mut p = player_at(40, 30, 3, -51);
    p.spawn_x = 7;
    p.spawn_y = 9;
    let (r, died) = gameover(&p);
    assert!(died);
    assert_eq!((r.x, r.y), (7, 9));
    assert_eq!((r.vx, r.vy), (0, 0));
}

#[test]
fn fall_at_threshold_is_not_fatal() {
    // The rule is strict: exactly the fatal speed does not trigger.
    let p = player_at(40, 30, 3, -50);
    let (r, died) = gameover(&p);
    assert!(!died);
    assert_eq!(r, p);
}
