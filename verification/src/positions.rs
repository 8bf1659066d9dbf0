//! The position recorder and replayer: a queue of sampled positions with a
//! repeating interval timer. In recording mode the queue grows by the current
//! position on every timer fire; in replay mode the front of the queue is
//! popped on every fire and becomes the replaying entity's exact position,
//! with linear interpolation toward the upcoming front between fires. An
//! exhausted replay queue is a terminal condition: the rival has finished.

use vstd::prelude::*;
use vstd::arithmetic::div_mod::lemma_div_multiples_vanish;
use vstd::arithmetic::div_mod::lemma_fundamental_div_mod;
use vstd::arithmetic::div_mod::lemma_small_mod;

use std::collections::VecDeque;

use crate::geom::COORD_LIMIT;
use crate::geom::WorldVec;
use crate::velocity::MAX_TICK_MS;

verus! {

/// How often positions are sampled while recording and consumed while
/// replaying, in milliseconds.
pub const SAMPLE_INTERVAL_MS: i64 = 100;

/// A repeating timer: `elapsed_ms` grows with every tick's frame time, and on
/// reaching `interval_ms` the timer fires and wraps.
#[derive(Clone, Copy, Debug, PartialEq, Eq, Structural)]
pub struct RepeatTimer {
    pub interval_ms: i64,
    pub elapsed_ms: i64,
}

impl RepeatTimer {
    pub open spec fn wf(self) -> bool {
        &&& 0 < self.interval_ms <= MAX_TICK_MS
        &&& 0 <= self.elapsed_ms < self.interval_ms
    }

    /// Whether advancing by `delta` makes the timer fire.
    pub open spec fn spec_fires(self, delta: int) -> bool {
        self.elapsed_ms + delta >= self.interval_ms
    }

    /// The elapsed time after advancing by `delta`: the remainder within the
    /// interval. A fire wraps; at most one fire is reported per tick, so a
    /// frame spanning several intervals still pops or pushes once.
    pub open spec fn spec_elapsed_after(self, delta: int) -> int {
        (self.elapsed_ms + delta) % (self.interval_ms as int)
    }

    /// Advances the timer by one frame's time; reports whether it fired, and
    /// wraps the elapsed time on a fire.
    pub fn tick(&mut self, delta_ms: i64) -> (fired: bool)
        requires
            old(self).wf(),
            0 <= delta_ms <= MAX_TICK_MS,
        ensures
            final(self).interval_ms == old(self).interval_ms,
            fired == old(self).spec_fires(delta_ms as int),
            final(self).elapsed_ms == old(self).spec_elapsed_after(delta_ms as int),
            final(self).wf(),
    {
        let total: i64 = self.elapsed_ms + delta_ms;
        if total >= self.interval_ms {
            let wrapped: i64 = total % self.interval_ms;
            proof {
                lemma_fundamental_div_mod(total as int, self.interval_ms as int);
            }
            self.elapsed_ms = wrapped;
            true
        } else {
            proof {
                lemma_fundamental_div_mod(total as int, self.interval_ms as int);
                assert(total % self.interval_ms == total) by {
                    lemma_small_mod(total as nat, self.interval_ms as nat);
                }
            }
            self.elapsed_ms = total;
            false
        }
    }
}

/// The position within an interval while replaying: the weighted average of
/// the pre-pop current position and the upcoming front of the queue, weighted
/// by the time elapsed within the interval, rounded down. At `elapsed == 0` it
/// is exactly the current position; at `elapsed == interval` it is exactly the
/// upcoming position.
pub open spec fn spec_lerp(current: int, next: int, elapsed: int, interval: int) -> int {
    (elapsed * next + (interval - elapsed) * current) / interval
}

/// Linear interpolation on one axis, as `spec_lerp` describes.
fn lerp(current: i64, next: i64, elapsed: i64, interval: i64) -> (r: i64)
    requires
        0 < interval <= MAX_TICK_MS,
        0 <= elapsed <= interval,
        -COORD_LIMIT <= current <= COORD_LIMIT,
        -COORD_LIMIT <= next <= COORD_LIMIT,
    ensures
        r == spec_lerp(current as int, next as int, elapsed as int, interval as int),
        -COORD_LIMIT <= r <= COORD_LIMIT,
{
    proof {
        assert(-(MAX_TICK_MS * COORD_LIMIT) <= elapsed * next <= MAX_TICK_MS * COORD_LIMIT)
            by (nonlinear_arith)
            requires
                0 <= elapsed <= MAX_TICK_MS,
                -COORD_LIMIT <= next <= COORD_LIMIT,
        ;
        assert(-(MAX_TICK_MS * COORD_LIMIT) <= (interval - elapsed) * current <= MAX_TICK_MS
            * COORD_LIMIT) by (nonlinear_arith)
            requires
                0 <= interval - elapsed <= MAX_TICK_MS,
                -COORD_LIMIT <= current <= COORD_LIMIT,
        ;
    }
    let numerator: i64 = elapsed * next + (interval - elapsed) * current;
    proof {
        let n = numerator as int;
        let i = interval as int;
        let q = n / i;
        lemma_fundamental_div_mod(n, i);
        assert(i64::MIN <= q <= i64::MAX) by (nonlinear_arith)
            requires
                n == i * q + n % i,
                0 <= n % i < i,
                1 <= i,
                -2_000_000_000_000_000_000 <= n <= 2_000_000_000_000_000_000,
        ;
        assert(n <= i * COORD_LIMIT && -(i * COORD_LIMIT) <= n) by (nonlinear_arith)
            requires
                0 <= elapsed <= i,
                n == elapsed * next + (i - elapsed) * current,
                -COORD_LIMIT <= next <= COORD_LIMIT,
                -COORD_LIMIT <= current <= COORD_LIMIT,
        ;
        assert(-(COORD_LIMIT as int) <= q <= COORD_LIMIT) by (nonlinear_arith)
            requires
                n == i * q + n % i,
                0 <= n % i < i,
                1 <= i,
                n <= i * COORD_LIMIT,
                -(i * COORD_LIMIT) <= n,
        ;
    }
    let q = numerator.checked_div_euclid(interval);
    q.unwrap()
}

/// The result of one replay tick: the path may already be exhausted (a
/// terminal condition), the timer may fire and snap the entity to the popped
/// front of the queue, or the entity is interpolated toward the upcoming
/// front.
#[derive(Clone, Copy, Debug, PartialEq, Eq, Structural)]
pub enum ReplayStep {
    Exhausted,
    Snap(WorldVec),
    Interpolated(WorldVec),
}

/// An ordered queue of sampled positions with its sampling timer. One log
/// records the player's run; another, seeded from a stored path, replays it
/// as the rival's motion.
#[derive(Clone, Debug)]
pub struct Positions {
    pub values: VecDeque<WorldVec>,
    pub timer: RepeatTimer,
}

impl Positions {
    pub open spec fn wf(self) -> bool {
        &&& self.timer.wf()
        &&& forall|i: int| 0 <= i < self.values@.len() ==> (#[trigger] self.values@[i]).in_range()
    }

    /// One tick in recording mode: advance the timer, and on a fire append
    /// the entity's current position to the back of the queue.
    pub fn record_tick(&mut self, position: &WorldVec, delta_ms: i64) -> (fired: bool)
        requires
            old(self).wf(),
            0 <= delta_ms <= MAX_TICK_MS,
            position.in_range(),
        ensures
            fired == old(self).timer.spec_fires(delta_ms as int),
            final(self).timer.interval_ms == old(self).timer.interval_ms,
            final(self).timer.elapsed_ms == old(self).timer.spec_elapsed_after(delta_ms as int),
            final(self).values@ == if fired {
                old(self).values@.push(*position)
            } else {
                old(self).values@
            },
            final(self).wf(),
    {
        let fired = self.timer.tick(delta_ms);
        if fired {
            self.values.push_back(*position);
        }
        fired
    }

    /// One tick in replay mode. An empty queue means the replaying entity has
    /// run out of path — a terminal condition reported without advancing
    /// anything. Otherwise the timer advances; on a fire the front position is
    /// popped and becomes the entity's exact position, and between fires the
    /// entity's position is interpolated from its current position toward the
    /// upcoming front, weighted by the time elapsed within the interval.
    pub fn replay_tick(&mut self, current: &WorldVec, delta_ms: i64) -> (r: ReplayStep)
        requires
            old(self).wf(),
            0 <= delta_ms <= MAX_TICK_MS,
            current.in_range(),
        ensures
            final(self).wf(),
            final(self).timer.interval_ms == old(self).timer.interval_ms,
            old(self).values@.len() == 0 ==> r is Exhausted && final(self).values@ == old(
                self,
            ).values@ && final(self).timer == old(self).timer,
            old(self).values@.len() > 0 ==> {
                &&& final(self).timer.elapsed_ms == old(self).timer.spec_elapsed_after(
                    delta_ms as int,
                )
                &&& if old(self).timer.spec_fires(delta_ms as int) {
                    &&& r == ReplayStep::Snap(old(self).values@[0])
                    &&& final(self).values@ == old(self).values@.drop_first()
                } else {
                    &&& final(self).values@ == old(self).values@
                    &&& r == ReplayStep::Interpolated(
                        WorldVec {
                            x: spec_lerp(
                                current.x as int,
                                old(self).values@[0].x as int,
                                old(self).timer.elapsed_ms + delta_ms,
                                old(self).timer.interval_ms as int,
                            ) as i64,
                            y: spec_lerp(
                                current.y as int,
                                old(self).values@[0].y as int,
                                old(self).timer.elapsed_ms + delta_ms,
                                old(self).timer.interval_ms as int,
                            ) as i64,
                            z: spec_lerp(
                                current.z as int,
                                old(self).values@[0].z as int,
                                old(self).timer.elapsed_ms + delta_ms,
                                old(self).timer.interval_ms as int,
                            ) as i64,
                        },
                    )
                }
            },
            r matches ReplayStep::Interpolated(p) ==> p.in_range(),
            r matches ReplayStep::Snap(p) ==> p.in_range(),
    {
        if self.values.len() == 0 {
            return ReplayStep::Exhausted;
        }
        let fired = self.timer.tick(delta_ms);
        if fired {
            let front = self.values.pop_front().unwrap();
            proof {
                assert(final(self).values@ =~= old(self).values@.drop_first());
            }
            ReplayStep::Snap(front)
        } else {
            proof {
                lemma_small_mod(
                    (old(self).timer.elapsed_ms + delta_ms) as nat,
                    old(self).timer.interval_ms as nat,
                );
            }
            let front: WorldVec = self.values[0];
            let x = lerp(current.x, front.x, self.timer.elapsed_ms, self.timer.interval_ms);
            let y = lerp(current.y, front.y, self.timer.elapsed_ms, self.timer.interval_ms);
            let z = lerp(current.z, front.z, self.timer.elapsed_ms, self.timer.interval_ms);
            ReplayStep::Interpolated(WorldVec { x, y, z })
        }
    }
}

impl Default for Positions {
    /// An empty log sampling at the standard cadence.
    fn default() -> (r: Self)
        ensures
            r.values@ == Seq::<WorldVec>::empty(),
            r.timer == (RepeatTimer { interval_ms: SAMPLE_INTERVAL_MS, elapsed_ms: 0 }),
            r.wf(),
    {
        Positions {
            values: VecDeque::with_capacity(1000),
            timer: RepeatTimer { interval_ms: SAMPLE_INTERVAL_MS, elapsed_ms: 0 },
        }
    }
}

/// The positions that the first `n` replay fires snap to, starting from a
/// queue `q`: each fire pops the front of the queue and makes it the entity's
/// exact position, exactly as a firing `replay_tick` does.
pub open spec fn spec_replay_snaps(q: Seq<WorldVec>, n: nat) -> Seq<WorldVec>
    decreases n,
{
    if n == 0 || q.len() == 0 {
        Seq::<WorldVec>::empty()
    } else {
        seq![q[0]] + spec_replay_snaps(q.drop_first(), (n - 1) as nat)
    }
}

/// What is left of the queue after the first `n` replay fires.
pub open spec fn spec_replay_rest(q: Seq<WorldVec>, n: nat) -> Seq<WorldVec>
    decreases n,
{
    if n == 0 || q.len() == 0 {
        q
    } else {
        spec_replay_rest(q.drop_first(), (n - 1) as nat)
    }
}

/// Round trip between recording and replaying. A log recorded over `n` timer
/// fires holds exactly the `n` sampled positions in order, since every
/// recording fire appends one position at the back (`record_tick`). Replaying
/// that queue through `n` fires snaps to exactly those `n` positions, in the
/// recorded order, and leaves the queue empty after the `n`-th, since every
/// replaying fire pops the front (`replay_tick`).
pub proof fn lemma_record_replay_round_trip(recorded: Seq<WorldVec>)
    ensures
        spec_replay_snaps(recorded, recorded.len()) == recorded,
        spec_replay_rest(recorded, recorded.len()).len() == 0,
    decreases recorded.len(),
{
    if recorded.len() == 0 {
        assert(spec_replay_snaps(recorded, recorded.len()) =~= recorded);
    } else {
        lemma_record_replay_round_trip(recorded.drop_first());
        assert(spec_replay_snaps(recorded, recorded.len()) =~= recorded);
    }
}

/// Boundary continuity of the replay interpolation: at the start of an
/// interval the interpolated position is exactly the pre-pop current
/// position, and at the end of the interval it is exactly the upcoming queued
/// position, so there is no jump at a fire boundary.
pub proof fn lemma_interpolation_boundaries(current: int, next: int, interval: int)
    requires
        interval > 0,
    ensures
        spec_lerp(current, next, 0, interval) == current,
        spec_lerp(current, next, interval, interval) == next,
{
    lemma_div_multiples_vanish(current, interval);
    lemma_div_multiples_vanish(next, interval);
    assert(0 * next + (interval - 0) * current == interval * current);
    assert(interval * next + (interval - interval) * current == interval * next);
}

} // verus!
