//! Enemies: the alive / dying / removed state machine and cooldown-gated
//! motion toward or away from the player.

use vstd::prelude::*;

use crate::geometry::{wf_point, wf_size, Point, Size};
use crate::player::Player;

verus! {

/// The enemy state machine: `Alive` until captured, `Dead` while the dying
/// animation plays, `Done` once it may be removed from the roster.
#[derive(Clone, Copy, Debug, PartialEq, Eq, Structural)]
pub enum EnemyState {
    Alive,
    Dead,
    Done,
}

/// One enemy.  `animation_mark_ms` is the monotonic-clock timestamp of the
/// last cooldown or animation mark; an aggressive enemy closes twice as fast
/// horizontally when chasing.
#[derive(Clone, Copy, Debug, PartialEq, Eq, Structural)]
pub struct Enemy {
    pub aggressive: bool,
    pub position: Point,
    pub height: i32,
    pub width: i32,
    pub state: EnemyState,
    pub animation_index: i32,
    pub animation_mark_ms: u64,
}

/// Milliseconds elapsed since a mark, on a monotonic clock: zero when the
/// mark lies in the future.
pub open spec fn spec_elapsed(now_ms: u64, mark_ms: u64) -> int {
    if now_ms >= mark_ms {
        now_ms - mark_ms
    } else {
        0
    }
}

/// The enemy's position and dimensions are within the working range, and its
/// animation index has room to advance.
pub open spec fn wf_enemy(e: Enemy) -> bool {
    &&& wf_point(e.position)
    &&& 0 <= e.width <= 1000000000
    &&& 0 <= e.height <= 1000000000
    &&& e.animation_index < 0x7fffffff
}

/// One dying-animation tick: after more than a second since the last mark,
/// the animation index advances, up to 3; a tick that would push it past 3
/// makes the enemy `Done` instead.  Earlier calls change nothing.
pub open spec fn spec_dead_tick(e: Enemy, now_ms: u64) -> Enemy {
    if spec_elapsed(now_ms, e.animation_mark_ms) > 1000 {
        if e.animation_index >= 3 {
            Enemy { state: EnemyState::Done, ..e }
        } else {
            Enemy {
                animation_index: (e.animation_index + 1) as i32,
                animation_mark_ms: now_ms,
                ..e
            }
        }
    } else {
        e
    }
}

/// Whether a motion update fires: only a living enemy moves, and only once
/// at least 250 milliseconds have passed since its last mark.
pub open spec fn spec_move_fires(e: Enemy, now_ms: u64) -> bool {
    e.state is Alive && spec_elapsed(now_ms, e.animation_mark_ms) >= 250
}

/// One motion step toward the target: one unit per axis, except that an
/// aggressive enemy closes two units horizontally; the step is clamped to
/// the playfield, so the enemy's far edge never exits it on a growing step
/// and its near edge stops at zero on a shrinking one.
pub open spec fn spec_move_toward(e: Enemy, target: Point, s: Size, now_ms: u64) -> Enemy {
    if !spec_move_fires(e, now_ms) {
        e
    } else {
        let rate: int = if e.aggressive {
            2
        } else {
            1
        };
        let x: int = if e.position.x < target.x {
            min_step(e.position.x + rate, s.width - e.width)
        } else if e.position.x > target.x {
            max_step(e.position.x - rate, 0)
        } else {
            e.position.x as int
        };
        let y: int = if e.position.y < target.y {
            min_step(e.position.y + 1, s.height - e.height)
        } else if e.position.y > target.y {
            max_step(e.position.y - 1, 0)
        } else {
            e.position.y as int
        };
        Enemy {
            position: Point { x: x as i32, y: y as i32 },
            animation_mark_ms: now_ms,
            ..e
        }
    }
}

/// One motion step away from the target: one unit per axis, clamped to the
/// playfield in the same way as a step toward it.
pub open spec fn spec_move_away(e: Enemy, target: Point, s: Size, now_ms: u64) -> Enemy {
    if !spec_move_fires(e, now_ms) {
        e
    } else {
        let x: int = if e.position.x < target.x {
            max_step(e.position.x - 1, 0)
        } else if e.position.x > target.x {
            min_step(e.position.x + 1, s.width - e.width)
        } else {
            e.position.x as int
        };
        let y: int = if e.position.y < target.y {
            max_step(e.position.y - 1, 0)
        } else if e.position.y > target.y {
            min_step(e.position.y + 1, s.height - e.height)
        } else {
            e.position.y as int
        };
        Enemy {
            position: Point { x: x as i32, y: y as i32 },
            animation_mark_ms: now_ms,
            ..e
        }
    }
}

/// The smaller of two integers (the clamp of a growing step).
pub open spec fn min_step(a: int, b: int) -> int {
    if a <= b {
        a
    } else {
        b
    }
}

/// The larger of two integers (the clamp of a shrinking step).
pub open spec fn max_step(a: int, b: int) -> int {
    if a >= b {
        a
    } else {
        b
    }
}

impl Enemy {
    /// A freshly spawned enemy, alive and with its cooldown mark at the
    /// current time.
    pub fn new(x: i32, y: i32, height: i32, width: i32, aggressive: bool, now_ms: u64) -> (e: Enemy)
        ensures
            e == (Enemy {
                aggressive,
                position: Point { x, y },
                height,
                width,
                state: EnemyState::Alive,
                animation_index: 0,
                animation_mark_ms: now_ms,
            }),
    {
        Enemy {
            aggressive,
            position: Point { x, y },
            height,
            width,
            state: EnemyState::Alive,
            animation_index: 0,
            animation_mark_ms: now_ms,
        }
    }

    pub fn is_aggressive(&self) -> (r: bool)
        ensures
            r == self.aggressive,
    {
        self.aggressive
    }

    pub fn is_alive(&self) -> (r: bool)
        ensures
            r == (self.state is Alive),
    {
        match self.state {
            EnemyState::Alive => true,
            _ => false,
        }
    }

    pub fn get_position(&self) -> (p: Point)
        ensures
            p == self.position,
    {
        self.position
    }

    pub fn get_height(&self) -> (h: i32)
        ensures
            h == self.height,
    {
        self.height
    }

    pub fn get_width(&self) -> (w: i32)
        ensures
            w == self.width,
    {
        self.width
    }

    pub fn get_state(&self) -> (s: EnemyState)
        ensures
            s == self.state,
    {
        self.state
    }

    /// Captures the enemy: it turns `Dead` and its dying-animation clock
    /// restarts at the current time.
    pub fn dead(&mut self, now_ms: u64)
        ensures
            *final(self) == (Enemy {
                state: EnemyState::Dead,
                animation_index: 0,
                animation_mark_ms: now_ms,
                ..*old(self)
            }),
    {
        self.state = EnemyState::Dead;
        self.animation_index = 0;
        self.animation_mark_ms = now_ms;
    }

    /// Advances the dying animation by one tick when more than a second has
    /// passed since the last mark; the fourth tick makes the enemy `Done`.
    /// Returns the state and animation frame index to render.
    pub fn update_dead_animation(&mut self, now_ms: u64) -> (r: (EnemyState, i32))
        requires
            old(self).animation_index < 0x7fffffff,
        ensures
            *final(self) == spec_dead_tick(*old(self), now_ms),
            r == (final(self).state, final(self).animation_index),
    {
        if now_ms >= self.animation_mark_ms && now_ms - self.animation_mark_ms > 1000 {
            if self.animation_index >= 3 {
                self.state = EnemyState::Done;
            } else {
                self.animation_mark_ms = now_ms;
                self.animation_index = self.animation_index + 1;
            }
        }
        (self.state, self.animation_index)
    }

    /// Whether a motion update fires, marking the cooldown clock when it
    /// does.
    fn update_move(&mut self, now_ms: u64) -> (fired: bool)
        ensures
            fired == spec_move_fires(*old(self), now_ms),
            fired ==> *final(self) == (Enemy { animation_mark_ms: now_ms, ..*old(self) }),
            !fired ==> *final(self) == *old(self),
    {
        let alive = match self.state {
            EnemyState::Alive => true,
            _ => false,
        };
        if !alive {
            return false;
        }
        if !(now_ms >= self.animation_mark_ms && now_ms - self.animation_mark_ms >= 250) {
            return false;
        }
        self.animation_mark_ms = now_ms;
        true
    }

    /// One cooldown-gated motion step toward the player.
    pub fn move_toward_player(&mut self, player: &Player, window_size: Size, now_ms: u64)
        requires
            wf_enemy(*old(self)),
            wf_size(window_size),
        ensures
            *final(self) == spec_move_toward(
                *old(self),
                player.cur_position,
                window_size,
                now_ms,
            ),
            wf_enemy(*final(self)),
    {
        if self.update_move(now_ms) {
            let mut move_rate: i32 = 1;
            if self.aggressive {
                move_rate = 2;
            }
            let player_pos = player.get_cur_position();
            if self.position.x < player_pos.x {
                let grown = self.position.x + move_rate;
                let limit = window_size.width - self.width;
                self.position.x = if grown <= limit {
                    grown
                } else {
                    limit
                };
            } else if self.position.x > player_pos.x {
                let shrunk = self.position.x - move_rate;
                self.position.x = if shrunk >= 0 {
                    shrunk
                } else {
                    0
                };
            }
            if self.position.y < player_pos.y {
                let grown = self.position.y + 1;
                let limit = window_size.height - self.height;
                self.position.y = if grown <= limit {
                    grown
                } else {
                    limit
                };
            } else if self.position.y > player_pos.y {
                let shrunk = self.position.y - 1;
                self.position.y = if shrunk >= 0 {
                    shrunk
                } else {
                    0
                };
            }
        }
    }

    /// One cooldown-gated motion step away from the player.
    pub fn move_away_from_player(&mut self, player: &Player, window_size: Size, now_ms: u64)
        requires
            wf_enemy(*old(self)),
            wf_size(window_size),
        ensures
            *final(self) == spec_move_away(*old(self), player.cur_position, window_size, now_ms),
            wf_enemy(*final(self)),
    {
        if self.update_move(now_ms) {
            let player_pos = player.get_cur_position();
            if self.position.x < player_pos.x {
                let shrunk = self.position.x - 1;
                self.position.x = if shrunk >= 0 {
                    shrunk
                } else {
                    0
                };
            } else if self.position.x > player_pos.x {
                let grown = self.position.x + 1;
                let limit = window_size.width - self.width;
                self.position.x = if grown <= limit {
                    grown
                } else {
                    limit
                };
            }
            if self.position.y < player_pos.y {
                let shrunk = self.position.y - 1;
                self.position.y = if shrunk >= 0 {
                    shrunk
                } else {
                    0
                };
            } else if self.position.y > player_pos.y {
                let grown = self.position.y + 1;
                let limit = window_size.height - self.height;
                self.position.y = if grown <= limit {
                    grown
                } else {
                    limit
                };
            }
        }
    }
}

/// A freshly captured enemy reaches `Done` after exactly four one-second
/// ticks: ticks more than a second apart advance the animation frame through
/// 1, 2 and 3, and the fourth such tick retires the enemy.  Once `Done`,
/// further ticks change nothing.
pub proof fn lemma_dead_four_ticks(e: Enemy, t0: u64, t1: u64, t2: u64, t3: u64, t4: u64)
    requires
        e.state is Dead,
        e.animation_index == 0,
        e.animation_mark_ms == t0,
        t1 - t0 > 1000,
        t2 - t1 > 1000,
        t3 - t2 > 1000,
        t4 - t3 > 1000,
        t0 <= t1 <= t2 <= t3 <= t4,
    ensures
        spec_dead_tick(e, t1).state is Dead,
        spec_dead_tick(spec_dead_tick(e, t1), t2).state is Dead,
        spec_dead_tick(spec_dead_tick(spec_dead_tick(e, t1), t2), t3).state is Dead,
        spec_dead_tick(
            spec_dead_tick(spec_dead_tick(spec_dead_tick(e, t1), t2), t3),
            t4,
        ).state is Done,
{
}

/// A tick less than or exactly a second after the last mark is a no-op, and
/// a `Done` enemy never changes again.
pub proof fn lemma_dead_tick_noop(e: Enemy, now_ms: u64)
    ensures
        spec_elapsed(now_ms, e.animation_mark_ms) <= 1000 ==> spec_dead_tick(e, now_ms) == e,
        e.state is Done ==> spec_dead_tick(e, now_ms).state is Done,
{
}

/// From a position inside the playfield, either motion step leaves the enemy
/// inside it: the near edge never passes zero and the far edge never exits
/// the field.
pub proof fn lemma_move_stays_in_bounds(e: Enemy, target: Point, s: Size, now_ms: u64)
    requires
        wf_enemy(e),
        wf_size(s),
        0 <= e.position.x <= s.width - e.width,
        0 <= e.position.y <= s.height - e.height,
    ensures
        0 <= spec_move_toward(e, target, s, now_ms).position.x <= s.width - e.width,
        0 <= spec_move_toward(e, target, s, now_ms).position.y <= s.height - e.height,
        0 <= spec_move_away(e, target, s, now_ms).position.x <= s.width - e.width,
        0 <= spec_move_away(e, target, s, now_ms).position.y <= s.height - e.height,
{
}

/// Two motion updates less than 250 milliseconds apart leave the position
/// unchanged on the second call.
pub proof fn lemma_move_cooldown(e: Enemy, target: Point, s: Size, now_ms: u64)
    requires
        spec_elapsed(now_ms, e.animation_mark_ms) < 250,
    ensures
        spec_move_toward(e, target, s, now_ms) == e,
        spec_move_away(e, target, s, now_ms) == e,
{
}

} // verus!
