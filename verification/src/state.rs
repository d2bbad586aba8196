//! Shared run state and the interaction pass: collecting coins, finishing at
//! a checkpoint, and starting a paused run on the first input.
//!
//! Coins and checkpoints are detection-only: the same overlap test as the
//! blocks, but no correction is applied.

use vstd::prelude::*;

use crate::player::{views_of, Input};
use crate::rect::{collide_aabb, overlaps, Aabb, Rect};

verus! {

/// The phase of a run: paused until the first input, running, or finished at
/// a checkpoint.
#[derive(Clone, Copy, Debug, PartialEq, Eq, Structural)]
pub enum Game {
    Started,
    Finished,
    Paused,
}

/// The run's shared state: coins collected so far and the current phase.
#[derive(Clone, Copy, Debug, PartialEq, Eq, Structural)]
pub struct GameState {
    pub coins: u8,
    pub game: Game,
}

impl Default for GameState {
    /// A fresh run: no coins, paused until the first input.
    fn default() -> (s: Self)
        ensures
            s == (GameState { coins: 0u8, game: Game::Paused }),
    {
        GameState { coins: 0, game: Game::Paused }
    }
}

/// How many of the rectangles the given hitbox overlaps.
pub open spec fn overlap_count(p: Aabb, s: Seq<Aabb>) -> nat
    decreases s.len(),
{
    if s.len() == 0 {
        0
    } else {
        overlap_count(p, s.drop_last()) + if overlaps(p, s.last()) {
            1nat
        } else {
            0nat
        }
    }
}

/// Whether the given hitbox overlaps any of the rectangles.
pub open spec fn overlaps_any(p: Aabb, s: Seq<Aabb>) -> bool {
    exists|j: int| 0 <= j < s.len() && overlaps(p, s[j])
}

/// A prefix of the coins overlaps at most as many times as the whole set.
proof fn lemma_overlap_count_prefix(p: Aabb, s: Seq<Aabb>, i: int)
    requires
        0 <= i <= s.len(),
    ensures
        overlap_count(p, s.take(i)) <= overlap_count(p, s),
    decreases s.len() - i,
{
    if i == s.len() {
        assert(s.take(i) =~= s);
    } else {
        lemma_overlap_count_prefix(p, s, i + 1);
        assert(s.take(i + 1).drop_last() =~= s.take(i));
        assert(s.take(i + 1).last() == s[i]);
    }
}

/// One tick of the interaction pass: every coin the player's hitbox touches
/// is collected — counted, and marked in the returned mask so the caller can
/// remove it — and contact with any checkpoint finishes the run.
#[verifier::loop_isolation(false)]
pub fn action(
    player: &Rect,
    coins: &Vec<Rect>,
    checkpoints: &Vec<Rect>,
    state: &mut GameState,
) -> (collected: Vec<bool>)
    requires
        player@.bounded(),
        forall|j: int| 0 <= j < coins@.len() ==> (#[trigger] coins@[j]@).bounded(),
        forall|j: int| 0 <= j < checkpoints@.len() ==> (#[trigger] checkpoints@[j]@).bounded(),
        old(state).coins + overlap_count(player@, views_of(coins@)) <= u8::MAX,
    ensures
        collected@.len() == coins@.len(),
        forall|j: int| 0 <= j < coins@.len() ==> collected@[j] == overlaps(
            player@,
            (#[trigger] coins@[j])@,
        ),
        final(state).coins == old(state).coins + overlap_count(player@, views_of(coins@)),
        final(state).game == if overlaps_any(player@, views_of(checkpoints@)) {
            Game::Finished
        } else {
            old(state).game
        },
{
    let ghost cs = views_of(coins@);
    let ghost ps = views_of(checkpoints@);
    let mut collected: Vec<bool> = Vec::new();

    let mut i: usize = 0;
    while i < coins.len()
        invariant
            i <= coins.len(),
            collected@.len() == i,
            forall|j: int| 0 <= j < i ==> collected@[j] == overlaps(player@, cs[j]),
            state.coins == old(state).coins + overlap_count(player@, cs.take(i as int)),
            state.game == old(state).game,
        decreases coins.len() - i,
    {
        let c = coins[i];
        proof {
            assert(c@ == cs[i as int]);
            lemma_overlap_count_prefix(player@, cs, i as int + 1);
            assert(cs.take(i as int + 1).drop_last() =~= cs.take(i as int));
            assert(cs.take(i as int + 1).last() == cs[i as int]);
        }
        let hit = match collide_aabb(player, &c) {
            Some(_) => true,
            None => false,
        };
        if hit {
            state.coins = state.coins + 1;
        }
        collected.push(hit);
        i = i + 1;
    }
    proof {
        assert(cs.take(coins@.len() as int) =~= cs);
    }

    let mut k: usize = 0;
    while k < checkpoints.len()
        invariant
            k <= checkpoints.len(),
            state.coins == old(state).coins + overlap_count(player@, cs),
            state.game == if overlaps_any(player@, ps.take(k as int)) {
                Game::Finished
            } else {
                old(state).game
            },
        decreases checkpoints.len() - k,
    {
        let cp = checkpoints[k];
        proof {
            assert(cp@ == ps[k as int]);
        }
        if let Some(_) = collide_aabb(player, &cp) {
            state.game = Game::Finished;
        }
        proof {
            assert(ps.take(k as int + 1) =~= ps.take(k as int).push(ps[k as int]));
            if overlaps(player@, ps[k as int]) {
                assert(ps.take(k as int + 1)[k as int] == ps[k as int]);
                assert(overlaps_any(player@, ps.take(k as int + 1)));
            } else {
                assert(forall|j: int|
                    0 <= j < k as int + 1 ==> ps.take(k as int + 1)[j] == ps.take(k as int).push(
                        ps[k as int],
                    )[j]);
                assert(overlaps_any(player@, ps.take(k as int + 1)) == overlaps_any(
                    player@,
                    ps.take(k as int),
                ));
            }
        }
        k = k + 1;
    }
    proof {
        assert(ps.take(checkpoints@.len() as int) =~= ps);
    }
    collected
}

/// The first held intent key starts a paused run; nothing else changes the
/// phase here, and the coin count is untouched.
pub fn unpause(state: &mut GameState, input: &Input)
    ensures
        final(state).game == if (input.left || input.right || input.up) && old(state).game
            is Paused {
            Game::Started
        } else {
            old(state).game
        },
        final(state).coins == old(state).coins,
{
    if (input.left || input.right || input.up) && state.game == Game::Paused {
        state.game = Game::Started;
    }
}

} // verus!
