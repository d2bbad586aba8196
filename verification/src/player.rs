//! Player kinematics: the once-per-tick state resolution that owns the
//! player's velocity, position and motion flags.
//!
//! One tick, in order: horizontal intent, jump intent, gravity integration
//! (suspended while grabbing), one explicit Euler step to a tentative
//! position, per-axis correction against every block, grab detection against
//! every hook at the pre-step position, grab release on any motion, commit.
//! Blocks are processed in the order given; two simultaneous collisions apply
//! two corrections in sequence, so the outcome is order-dependent by design.

use vstd::math::abs;
use vstd::prelude::*;

use crate::rect::{collide_aabb, overlaps, pen_x, pen_y, signum, Aabb, Rect};

verus! {

/// Bound on the world coordinates, sizes and speeds a tick starts from.
/// Every value a tick computes then stays far inside the resolver's range.
pub const WORLD_LIMIT: i64 = 0x4000_0000;

/// A falling player whose vertical center is closer to a hook's than this
/// grabs it on contact.
pub const GRAB_DISTANCE: i64 = 8;

/// Falling faster than this is fatal: the player respawns at the spawn point.
pub const FATAL_FALL_SPEED: i64 = -50;

/// The player's whole kinematic state: hitbox center and half-extents,
/// velocity, spawn point, and the motion flags the next tick and the
/// animation selection read.
#[derive(Clone, Copy, Debug, PartialEq, Eq, Structural)]
pub struct Player {
    pub x: i64,
    pub y: i64,
    pub half_w: i64,
    pub half_h: i64,
    pub vx: i64,
    pub vy: i64,
    pub spawn_x: i64,
    pub spawn_y: i64,
    pub is_grabbing: bool,
    pub is_in_air: bool,
}

/// The player state over unbounded integers, for specifications. During a
/// tick's resolution, `x` and `y` hold the tentative position.
pub struct PlayerV {
    pub x: int,
    pub y: int,
    pub half_w: int,
    pub half_h: int,
    pub vx: int,
    pub vy: int,
    pub spawn_x: int,
    pub spawn_y: int,
    pub is_grabbing: bool,
    pub is_in_air: bool,
}

impl View for Player {
    type V = PlayerV;

    open spec fn view(&self) -> PlayerV {
        PlayerV {
            x: self.x as int,
            y: self.y as int,
            half_w: self.half_w as int,
            half_h: self.half_h as int,
            vx: self.vx as int,
            vy: self.vy as int,
            spawn_x: self.spawn_x as int,
            spawn_y: self.spawn_y as int,
            is_grabbing: self.is_grabbing,
            is_in_air: self.is_in_air,
        }
    }
}

/// One tick's input snapshot: which intent keys are held, and whether a
/// horizontal key was released since the last tick.
#[derive(Clone, Copy, Debug, PartialEq, Eq, Structural)]
pub struct Input {
    pub left: bool,
    pub right: bool,
    pub up: bool,
    pub left_released: bool,
    pub right_released: bool,
}

impl Input {
    /// No intent key is held.
    pub open spec fn none_held(self) -> bool {
        !self.left && !self.right && !self.up
    }

    /// Nothing held, nothing released: the tick runs on physics alone.
    pub open spec fn is_idle(self) -> bool {
        self.none_held() && !self.left_released && !self.right_released
    }
}

/// The movement tuning: gravity per unit of elapsed time, the fixed running
/// speed, and the vertical speed a jump starts with.
#[derive(Clone, Copy, Debug, PartialEq, Eq, Structural)]
pub struct Constants {
    pub gravity: i64,
    pub horizontal_speed: i64,
    pub jump_speed: i64,
}

impl Constants {
    /// Non-negative and within the world bound.
    pub open spec fn wf(self) -> bool {
        &&& 0 <= self.gravity <= WORLD_LIMIT
        &&& 0 <= self.horizontal_speed <= WORLD_LIMIT
        &&& 0 <= self.jump_speed <= WORLD_LIMIT
    }
}

impl PlayerV {
    /// The player's hitbox at the position currently held.
    pub open spec fn hitbox(self) -> Aabb {
        Aabb { x: self.x, y: self.y, half_w: self.half_w, half_h: self.half_h }
    }

    /// Within the world bound, with non-negative half-extents.
    pub open spec fn wf(self) -> bool {
        &&& -WORLD_LIMIT <= self.x <= WORLD_LIMIT
        &&& -WORLD_LIMIT <= self.y <= WORLD_LIMIT
        &&& 0 <= self.half_w <= WORLD_LIMIT
        &&& 0 <= self.half_h <= WORLD_LIMIT
        &&& -WORLD_LIMIT <= self.vx <= WORLD_LIMIT
        &&& -WORLD_LIMIT <= self.vy <= WORLD_LIMIT
        &&& -WORLD_LIMIT <= self.spawn_x <= WORLD_LIMIT
        &&& -WORLD_LIMIT <= self.spawn_y <= WORLD_LIMIT
    }

    /// What a tick's intermediate and final states satisfy: the corrections
    /// and the Euler step stay within small multiples of the world bound.
    pub open spec fn in_motion_range(self) -> bool {
        &&& -3 * WORLD_LIMIT <= self.x <= 3 * WORLD_LIMIT
        &&& -3 * WORLD_LIMIT <= self.y <= 3 * WORLD_LIMIT
        &&& 0 <= self.half_w <= WORLD_LIMIT
        &&& 0 <= self.half_h <= WORLD_LIMIT
        &&& -WORLD_LIMIT <= self.vx <= WORLD_LIMIT
        &&& -2 * WORLD_LIMIT <= self.vy <= 2 * WORLD_LIMIT
        &&& -WORLD_LIMIT <= self.spawn_x <= WORLD_LIMIT
        &&& -WORLD_LIMIT <= self.spawn_y <= WORLD_LIMIT
    }
}

impl Aabb {
    /// A world rectangle: within the world bound.
    pub open spec fn in_world(self) -> bool {
        &&& -WORLD_LIMIT <= self.x <= WORLD_LIMIT
        &&& -WORLD_LIMIT <= self.y <= WORLD_LIMIT
        &&& 0 <= self.half_w <= WORLD_LIMIT
        &&& 0 <= self.half_h <= WORLD_LIMIT
    }
}

/// Every rectangle of the sequence is within the world bound.
pub open spec fn all_in_world(s: Seq<Aabb>) -> bool {
    forall|i: int| 0 <= i < s.len() ==> (#[trigger] s[i]).in_world()
}

/// The horizontal velocity after reading the held and released keys: a held
/// direction key forces the running speed (left wins when both are held), and
/// a release with the other direction not held stops the run.
pub open spec fn vx_of_intent(vx: int, i: Input, c: Constants) -> int {
    let held = if i.left {
        -c.horizontal_speed as int
    } else if i.right {
        c.horizontal_speed as int
    } else {
        vx
    };
    if (i.right_released && !i.left) || (i.left_released && !i.right) {
        0
    } else {
        held
    }
}

/// A jump starts when "up" is held and the player is grounded or grabbing:
/// the one path that lets a grabbing player leave a hook upward.
pub open spec fn jump_applies(p: PlayerV, i: Input) -> bool {
    i.up && (!p.is_in_air || p.is_grabbing)
}

/// Intent, gravity and the Euler step: the state entering block resolution,
/// with `x` and `y` holding the tentative position. Gravity is suspended
/// while grabbing; a jump puts the player in the air.
pub open spec fn integrate(p: PlayerV, i: Input, dt: int, c: Constants) -> PlayerV {
    let vx = vx_of_intent(p.vx, i, c);
    let vy_jump = if jump_applies(p, i) {
        c.jump_speed as int
    } else {
        p.vy
    };
    let in_air = if jump_applies(p, i) {
        true
    } else {
        p.is_in_air
    };
    let vy = if p.is_grabbing {
        vy_jump
    } else {
        vy_jump - c.gravity * dt
    };
    PlayerV { x: p.x + vx, y: p.y + vy, vx, vy, is_in_air: in_air, ..p }
}

/// Resolution against one block. On overlap exactly one axis is corrected:
/// the vertical one when the horizontal penetration is strictly deeper and
/// the vertical penetration points with the current vertical motion (the
/// tie-break that keeps walls from fighting a primarily falling or rising
/// player), the horizontal one otherwise. A downward vertical correction
/// grounds the player.
pub open spec fn block_step(p: PlayerV, b: Aabb) -> PlayerV {
    if overlaps(p.hitbox(), b) {
        let h = pen_x(p.hitbox(), b);
        let v = pen_y(p.hitbox(), b);
        if abs(h) > abs(v) && signum(v) == signum(p.vy) {
            PlayerV {
                y: p.y - v,
                vy: 0,
                is_in_air: if p.vy < 0 {
                    false
                } else {
                    p.is_in_air
                },
                ..p
            }
        } else {
            PlayerV { x: p.x - h, vx: 0, ..p }
        }
    } else {
        p
    }
}

/// Block resolution over the whole obstacle set, first to last.
pub open spec fn resolve_blocks(p: PlayerV, blocks: Seq<Aabb>) -> PlayerV
    decreases blocks.len(),
{
    if blocks.len() == 0 {
        p
    } else {
        block_step(resolve_blocks(p, blocks.drop_last()), blocks.last())
    }
}

/// Resolution against one hook, tested at the pre-step position `(ox, oy)`.
/// A falling player in contact whose vertical center-distance is under the
/// grab distance grabs on: vertical motion stops and the tentative height
/// snaps so the player hangs with its top edge level with the hook's top.
pub open spec fn hook_step(p: PlayerV, ox: int, oy: int, k: Aabb) -> PlayerV {
    let probe = Aabb { x: ox, y: oy, half_w: p.half_w, half_h: p.half_h };
    if overlaps(probe, k) && abs(oy - k.y) < GRAB_DISTANCE && p.vy < 0 {
        PlayerV { y: k.y + k.half_h - p.half_h, vy: 0, is_grabbing: true, ..p }
    } else {
        p
    }
}

/// Hook resolution over the whole hook set, first to last.
pub open spec fn resolve_hooks(p: PlayerV, ox: int, oy: int, hooks: Seq<Aabb>) -> PlayerV
    decreases hooks.len(),
{
    if hooks.len() == 0 {
        p
    } else {
        hook_step(resolve_hooks(p, ox, oy, hooks.drop_last()), ox, oy, hooks.last())
    }
}

/// Any motion left after resolution releases the grab, upward jumps
/// included.
pub open spec fn release_grab(p: PlayerV) -> PlayerV {
    if p.vy > 0 || p.vx != 0 {
        PlayerV { is_grabbing: false, ..p }
    } else {
        p
    }
}

/// One whole tick: what [`step_player`] commits.
pub open spec fn step_spec(
    p: PlayerV,
    i: Input,
    dt: int,
    c: Constants,
    blocks: Seq<Aabb>,
    hooks: Seq<Aabb>,
) -> PlayerV {
    release_grab(resolve_hooks(resolve_blocks(integrate(p, i, dt, c), blocks), p.x, p.y, hooks))
}

/// A corrected coordinate rests exactly on the block's edge, so one block's
/// resolution keeps the state within the range a tick moves in; and the
/// penetration depths stay within a small multiple of the world bound.
proof fn lemma_block_step_in_range(p: PlayerV, b: Aabb)
    requires
        p.in_motion_range(),
        b.in_world(),
    ensures
        block_step(p, b).in_motion_range(),
        -6 * WORLD_LIMIT <= pen_x(p.hitbox(), b) <= 6 * WORLD_LIMIT,
        -6 * WORLD_LIMIT <= pen_y(p.hitbox(), b) <= 6 * WORLD_LIMIT,
{
    let a = p.hitbox();
    let sw = a.half_w + b.half_w;
    let sh = a.half_h + b.half_h;
    if a.x - b.x >= 0 {
        assert(signum(a.x - b.x) == 1);
        assert(pen_x(a, b) == abs(a.x - b.x) - sw);
        assert(p.x - pen_x(a, b) == b.x + sw);
    } else {
        assert(signum(a.x - b.x) == -1);
        assert(pen_x(a, b) == sw - abs(a.x - b.x));
        assert(p.x - pen_x(a, b) == b.x - sw);
    }
    if a.y - b.y >= 0 {
        assert(signum(a.y - b.y) == 1);
        assert(pen_y(a, b) == abs(a.y - b.y) - sh);
        assert(p.y - pen_y(a, b) == b.y + sh);
    } else {
        assert(signum(a.y - b.y) == -1);
        assert(pen_y(a, b) == sh - abs(a.y - b.y));
        assert(p.y - pen_y(a, b) == b.y - sh);
    }
}

/// Grabbing a hook snaps the height to hang from the hook, which lies
/// within the world, so one hook's resolution keeps the state in range.
proof fn lemma_hook_step_in_range(p: PlayerV, ox: int, oy: int, k: Aabb)
    requires
        p.in_motion_range(),
        k.in_world(),
    ensures
        hook_step(p, ox, oy, k).in_motion_range(),
{
}

/// The rectangle sequence a `Vec` of rectangles stands for.
pub open spec fn views_of(rs: Seq<Rect>) -> Seq<Aabb> {
    rs.map_values(|r: Rect| r@)
}

/// One simulation tick: reads the input snapshot and the elapsed time,
/// integrates gravity, resolves the proposed position against every block
/// and every hook in the order given, and commits the corrected position,
/// velocity and motion flags.
#[verifier::loop_isolation(false)]
pub fn step_player(
    p: &Player,
    input: Input,
    dt: i64,
    c: &Constants,
    blocks: &Vec<Rect>,
    hooks: &Vec<Rect>,
) -> (r: Player)
    requires
        p@.wf(),
        c.wf(),
        0 <= dt,
        c.gravity * dt <= WORLD_LIMIT,
        all_in_world(views_of(blocks@)),
        all_in_world(views_of(hooks@)),
    ensures
        r@ == step_spec(p@, input, dt as int, *c, views_of(blocks@), views_of(hooks@)),
        r@.in_motion_range(),
{
    let ghost bseq = views_of(blocks@);
    let ghost hseq = views_of(hooks@);
    let mut q = *p;

    // Horizontal intent: a held direction key forces the running speed,
    // a release with the other direction not held stops the run.
    if input.right {
        q.vx = c.horizontal_speed;
    }
    if input.left {
        q.vx = -c.horizontal_speed;
    }
    if (input.right_released && !input.left) || (input.left_released && !input.right) {
        q.vx = 0;
    }

    // Jump intent: only from the ground or from a hook.
    if input.up && (!q.is_in_air || q.is_grabbing) {
        q.vy = c.jump_speed;
        q.is_in_air = true;
    }

    // Gravity integration, suspended while grabbing.
    if !q.is_grabbing {
        q.vy = q.vy - c.gravity * dt;
    }

    // One explicit Euler step to the tentative position.
    q.x = q.x + q.vx;
    q.y = q.y + q.vy;
    assert(q@ == integrate(p@, input, dt as int, *c));

    // Block resolution against the tentative position: one axis per block.
    let mut idx: usize = 0;
    while idx < blocks.len()
        invariant
            idx <= blocks.len(),
            q@ == resolve_blocks(integrate(p@, input, dt as int, *c), bseq.take(idx as int)),
            q@.in_motion_range(),
        decreases blocks.len() - idx,
    {
        let ghost q0 = q@;
        let b = blocks[idx];
        proof {
            assert(b@ == bseq[idx as int]);
            assert(bseq[idx as int].in_world());
            lemma_block_step_in_range(q@, b@);
        }
        let probe = Rect { x: q.x, y: q.y, half_w: q.half_w, half_h: q.half_h };
        if let Some((h, v)) = collide_aabb(&probe, &b) {
            let ah = if h >= 0 { h } else { -h };
            let av = if v >= 0 { v } else { -v };
            if ah > av && ((v >= 0) == (q.vy >= 0)) {
                q.y = q.y - v;
                if q.vy < 0 {
                    q.is_in_air = false;
                }
                q.vy = 0;
            } else {
                q.x = q.x - h;
                q.vx = 0;
            }
        }
        proof {
            assert(q@ == block_step(q0, bseq[idx as int]));
            assert(bseq.take(idx as int + 1).drop_last() =~= bseq.take(idx as int));
            assert(bseq.take(idx as int + 1).last() == bseq[idx as int]);
        }
        idx = idx + 1;
    }
    proof {
        assert(bseq.take(blocks@.len() as int) =~= bseq);
    }

    // Hook resolution against the pre-step position: a qualifying contact
    // while falling grabs on and snaps the height to hang from the hook.
    let mut kdx: usize = 0;
    while kdx < hooks.len()
        invariant
            kdx <= hooks.len(),
            q@ == resolve_hooks(
                resolve_blocks(integrate(p@, input, dt as int, *c), bseq),
                p@.x,
                p@.y,
                hseq.take(kdx as int),
            ),
            q@.in_motion_range(),
        decreases hooks.len() - kdx,
    {
        let ghost q0 = q@;
        let k = hooks[kdx];
        proof {
            assert(k@ == hseq[kdx as int]);
            assert(hseq[kdx as int].in_world());
            lemma_hook_step_in_range(q@, p@.x, p@.y, k@);
        }
        let probe = Rect { x: p.x, y: p.y, half_w: q.half_w, half_h: q.half_h };
        if let Some(_) = collide_aabb(&probe, &k) {
            let d = p.y - k.y;
            let ad = if d >= 0 { d } else { -d };
            if ad < GRAB_DISTANCE && q.vy < 0 {
                q.is_grabbing = true;
                q.vy = 0;
                q.y = k.y + k.half_h - q.half_h;
            }
        }
        proof {
            assert(q@ == hook_step(q0, p@.x, p@.y, hseq[kdx as int]));
            assert(hseq.take(kdx as int + 1).drop_last() =~= hseq.take(kdx as int));
            assert(hseq.take(kdx as int + 1).last() == hseq[kdx as int]);
        }
        kdx = kdx + 1;
    }
    proof {
        assert(hseq.take(hooks@.len() as int) =~= hseq);
    }

    // Any motion left releases the grab.
    if q.vy > 0 || q.vx != 0 {
        q.is_grabbing = false;
    }
    q
}

/// The fall-death rule: a fall faster than the fatal speed resets the player
/// to the spawn point with zero velocity and leaves everything else alone.
/// Returns the new state and whether the death triggered.
pub fn gameover(p: &Player) -> (r: (Player, bool))
    ensures
        r.1 == (p.vy < FATAL_FALL_SPEED),
        r.1 ==> r.0 == (Player { x: p.spawn_x, y: p.spawn_y, vx: 0i64, vy: 0i64, ..*p }),
        !r.1 ==> r.0 == *p,
{
    if p.vy < FATAL_FALL_SPEED {
        (Player { x: p.spawn_x, y: p.spawn_y, vx: 0, vy: 0, ..*p }, true)
    } else {
        (*p, false)
    }
}

/// At most one axis is corrected per obstacle: resolving against one block
/// leaves the horizontal or the vertical coordinate untouched, never moves
/// both.
pub proof fn lemma_one_axis_per_block(p: PlayerV, b: Aabb)
    ensures
        block_step(p, b).x == p.x || block_step(p, b).y == p.y,
{
}

/// A tick never resizes the player and never moves the spawn point.
pub proof fn lemma_step_keeps_shape(
    p: PlayerV,
    i: Input,
    dt: int,
    c: Constants,
    blocks: Seq<Aabb>,
    hooks: Seq<Aabb>,
)
    ensures
        step_spec(p, i, dt, c, blocks, hooks).half_w == p.half_w,
        step_spec(p, i, dt, c, blocks, hooks).half_h == p.half_h,
        step_spec(p, i, dt, c, blocks, hooks).spawn_x == p.spawn_x,
        step_spec(p, i, dt, c, blocks, hooks).spawn_y == p.spawn_y,
{
    let m = integrate(p, i, dt, c);
    lemma_blocks_keep_shape(m, blocks);
    lemma_hooks_keep_shape(resolve_blocks(m, blocks), p.x, p.y, hooks);
}

/// Block resolution only moves the tentative position and stops velocity:
/// the half-extents and the spawn point come through unchanged.
proof fn lemma_blocks_keep_shape(p: PlayerV, blocks: Seq<Aabb>)
    ensures
        resolve_blocks(p, blocks).half_w == p.half_w,
        resolve_blocks(p, blocks).half_h == p.half_h,
        resolve_blocks(p, blocks).spawn_x == p.spawn_x,
        resolve_blocks(p, blocks).spawn_y == p.spawn_y,
    decreases blocks.len(),
{
    if blocks.len() > 0 {
        lemma_blocks_keep_shape(p, blocks.drop_last());
    }
}

/// Hook resolution likewise keeps the half-extents and the spawn point.
proof fn lemma_hooks_keep_shape(p: PlayerV, ox: int, oy: int, hooks: Seq<Aabb>)
    ensures
        resolve_hooks(p, ox, oy, hooks).half_w == p.half_w,
        resolve_hooks(p, ox, oy, hooks).half_h == p.half_h,
        resolve_hooks(p, ox, oy, hooks).spawn_x == p.spawn_x,
        resolve_hooks(p, ox, oy, hooks).spawn_y == p.spawn_y,
    decreases hooks.len(),
{
    if hooks.len() > 0 {
        lemma_hooks_keep_shape(p, ox, oy, hooks.drop_last());
    }
}

/// Block resolution never touches the grab flag, and only ever stops a
/// velocity component: an upward-or-still grab stays upward-or-still.
proof fn lemma_blocks_keep_grab_vy(p: PlayerV, blocks: Seq<Aabb>)
    requires
        p.is_grabbing ==> p.vy >= 0,
    ensures
        resolve_blocks(p, blocks).is_grabbing == p.is_grabbing,
        resolve_blocks(p, blocks).is_grabbing ==> resolve_blocks(p, blocks).vy >= 0,
    decreases blocks.len(),
{
    if blocks.len() > 0 {
        lemma_blocks_keep_grab_vy(p, blocks.drop_last());
    }
}

/// Hook resolution only ever starts a grab with vertical velocity zero:
/// an upward-or-still grab stays upward-or-still.
proof fn lemma_hooks_keep_grab_vy(p: PlayerV, ox: int, oy: int, hooks: Seq<Aabb>)
    requires
        p.is_grabbing ==> p.vy >= 0,
    ensures
        resolve_hooks(p, ox, oy, hooks).is_grabbing ==> resolve_hooks(p, ox, oy, hooks).vy >= 0,
    decreases hooks.len(),
{
    if hooks.len() > 0 {
        lemma_hooks_keep_grab_vy(p, ox, oy, hooks.drop_last());
    }
}

/// Hooks whose vertical center-distance to the pre-step position is at least
/// the grab distance never qualify, so the whole hook pass changes nothing.
proof fn lemma_hooks_far_no_grab(p: PlayerV, ox: int, oy: int, hooks: Seq<Aabb>)
    requires
        forall|j: int| 0 <= j < hooks.len() ==> abs(oy - (#[trigger] hooks[j]).y) >= GRAB_DISTANCE,
    ensures
        resolve_hooks(p, ox, oy, hooks) == p,
    decreases hooks.len(),
{
    if hooks.len() > 0 {
        lemma_hooks_far_no_grab(p, ox, oy, hooks.drop_last());
        assert(hooks.last() == hooks[hooks.len() - 1]);
    }
}

/// Grab freezes gravity: as long as the grab holds, the vertical velocity is
/// exactly zero after every tick, whatever the elapsed time and the gravity.
/// (When a grab starts it sets the vertical velocity to zero, so the
/// hypothesis holds of every reachable grabbing state.)
pub proof fn lemma_grab_freezes_gravity(
    p: PlayerV,
    i: Input,
    dt: int,
    c: Constants,
    blocks: Seq<Aabb>,
    hooks: Seq<Aabb>,
)
    requires
        p.is_grabbing ==> p.vy == 0,
        c.jump_speed >= 0,
    ensures
        step_spec(p, i, dt, c, blocks, hooks).is_grabbing ==> step_spec(
            p,
            i,
            dt,
            c,
            blocks,
            hooks,
        ).vy == 0,
{
    let m = integrate(p, i, dt, c);
    assert(m.is_grabbing ==> m.vy >= 0);
    lemma_blocks_keep_grab_vy(m, blocks);
    lemma_hooks_keep_grab_vy(resolve_blocks(m, blocks), p.x, p.y, hooks);
}

/// Grab threshold, kept side: a player who is not grabbing, and whose
/// vertical center-distance to every hook is at least the grab distance,
/// never comes out of a tick grabbing.
pub proof fn lemma_no_grab_when_far(
    p: PlayerV,
    i: Input,
    dt: int,
    c: Constants,
    blocks: Seq<Aabb>,
    hooks: Seq<Aabb>,
)
    requires
        !p.is_grabbing,
        forall|j: int| 0 <= j < hooks.len() ==> abs(p.y - (#[trigger] hooks[j]).y) >= GRAB_DISTANCE,
    ensures
        !step_spec(p, i, dt, c, blocks, hooks).is_grabbing,
{
    let m = integrate(p, i, dt, c);
    lemma_blocks_keep_grab_vy(m, blocks);
    lemma_hooks_far_no_grab(resolve_blocks(m, blocks), p.x, p.y, hooks);
}

/// Grab threshold, taken side: a falling player in contact with a hook whose
/// vertical center-distance is under the grab distance grabs on. With no
/// input, no blocks and this one hook, the tick ends grabbing, vertical
/// velocity zero, hanging with the top edge level with the hook's top.
pub proof fn lemma_grab_engages(p: PlayerV, i: Input, dt: int, c: Constants, k: Aabb)
    requires
        i.is_idle(),
        p.vx == 0,
        p.vy < 0,
        c.gravity >= 0,
        dt >= 0,
        overlaps(p.hitbox(), k),
        abs(p.y - k.y) < GRAB_DISTANCE,
    ensures
        step_spec(p, i, dt, c, Seq::<Aabb>::empty(), seq![k]).is_grabbing,
        step_spec(p, i, dt, c, Seq::<Aabb>::empty(), seq![k]).vy == 0,
        step_spec(p, i, dt, c, Seq::<Aabb>::empty(), seq![k]).y == k.y + k.half_h - p.half_h,
{
    let m = integrate(p, i, dt, c);
    assert(m.vx == 0);
    assert(m.vy < 0);
    assert(m.half_w == p.half_w && m.half_h == p.half_h);
    assert(resolve_blocks(m, Seq::<Aabb>::empty()) == m);
    let one = seq![k];
    assert(one.drop_last() =~= Seq::<Aabb>::empty());
    assert(resolve_hooks(m, p.x, p.y, one) == hook_step(
        resolve_hooks(m, p.x, p.y, one.drop_last()),
        p.x,
        p.y,
        k,
    ));
    assert(resolve_hooks(m, p.x, p.y, one.drop_last()) == m);
    assert((Aabb { x: p.x, y: p.y, half_w: m.half_w, half_h: m.half_h }) == p.hitbox());
}

/// Landing on a block's top face: with no input and no horizontal motion, a
/// falling player whose proposed position sinks into the top of the block —
/// not through it, and with more room left horizontally than the depth it
/// sinks to — comes to rest exactly on top of the block, with vertical
/// velocity zero and grounded, never below the block's top edge.
pub proof fn lemma_landing_on_block(p: PlayerV, i: Input, dt: int, c: Constants, b: Aabb)
    requires
        i.is_idle(),
        !p.is_grabbing,
        p.vx == 0,
        p.vy - c.gravity * dt < 0,
        0 < p.y + (p.vy - c.gravity * dt) - b.y,
        p.y + (p.vy - c.gravity * dt) - b.y < p.half_h + b.half_h,
        abs(p.x - b.x) + ((p.half_h + b.half_h) - (p.y + (p.vy - c.gravity * dt) - b.y)) < p.half_w
            + b.half_w,
    ensures
        step_spec(p, i, dt, c, seq![b], Seq::<Aabb>::empty()) == (PlayerV {
            y: b.y + b.half_h + p.half_h,
            vy: 0,
            is_in_air: false,
            ..p
        }),
{
    let m = integrate(p, i, dt, c);
    assert(m.vx == 0 && m.x == p.x);
    assert(m.vy == p.vy - c.gravity * dt);
    assert(m.y == p.y + m.vy);
    let one = seq![b];
    assert(one.drop_last() =~= Seq::<Aabb>::empty());
    assert(resolve_blocks(m, one) == block_step(resolve_blocks(m, one.drop_last()), b));
    assert(resolve_blocks(m, one.drop_last()) == m);
    let a = m.hitbox();
    let dy = m.y - b.y;
    assert(0 < dy < a.half_h + b.half_h);
    assert(overlaps(a, b));
    assert(signum(dy) == 1);
    assert(pen_y(a, b) == dy - (a.half_h + b.half_h));
    assert(pen_y(a, b) < 0);
    if a.x - b.x >= 0 {
        assert(signum(a.x - b.x) == 1);
        assert(pen_x(a, b) == abs(a.x - b.x) - (a.half_w + b.half_w));
    } else {
        assert(signum(a.x - b.x) == -1);
        assert(pen_x(a, b) == (a.half_w + b.half_w) - abs(a.x - b.x));
    }
    assert(abs(pen_x(a, b)) == (a.half_w + b.half_w) - abs(a.x - b.x));
    assert(abs(pen_y(a, b)) == (a.half_h + b.half_h) - dy);
    assert(abs(pen_x(a, b)) > abs(pen_y(a, b)));
    assert(signum(pen_y(a, b)) == signum(m.vy));
    assert(resolve_hooks(resolve_blocks(m, one), p.x, p.y, Seq::<Aabb>::empty())
        == resolve_blocks(m, one));
}

/// Resting on top of a block is a fixed point: a grounded player standing
/// exactly on the block's top face, with no input, is in exactly the same
/// place after the tick — however hard gravity pulls, as long as the pull
/// does not exceed the block's vertical reach nor the horizontal overlap
/// margin. Over successive ticks the player never sinks below the top edge.
pub proof fn lemma_rest_on_block(p: PlayerV, i: Input, dt: int, c: Constants, b: Aabb)
    requires
        i.is_idle(),
        !p.is_grabbing,
        p.vx == 0,
        p.vy == 0,
        p.y == b.y + b.half_h + p.half_h,
        0 < c.gravity * dt,
        c.gravity * dt < p.half_h + b.half_h,
        abs(p.x - b.x) + c.gravity * dt < p.half_w + b.half_w,
    ensures
        step_spec(p, i, dt, c, seq![b], Seq::<Aabb>::empty()) == (PlayerV {
            vy: 0,
            is_in_air: false,
            ..p
        }),
{
    lemma_landing_on_block(p, i, dt, c, b);
}

} // verus!
