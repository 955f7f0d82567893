//! The game session: per-frame orchestration of player motion, trail
//! extension, loop capture and enemy updates, and the top-level state
//! machine.

use vstd::prelude::*;

use crate::enemy::{
    spec_dead_tick, spec_move_away, spec_move_toward, wf_enemy, Enemy, EnemyState,
};
use crate::geometry::{
    spec_loop_box, wf_point, wf_size, BoundingBox, Line, Point, Size,
};
use crate::player::{spec_changed_axis, spec_player_update, Direction, Player};
use crate::trail::Trail;

verus! {

/// Width and height in units of one sprite tile.
pub const SPRITE_WIDTH: i32 = 32;

/// The player's spawn coordinate, half a tile in from the origin.
pub const START_X: i32 = 16;

/// The player's spawn coordinate, half a tile in from the origin.
pub const START_Y: i32 = 16;

/// The top-level session state.  `NextLevel` is an inert placeholder with no
/// transition back to `Playing`.
#[derive(Clone, Copy, Debug, PartialEq, Eq, Structural)]
pub enum GameState {
    Playing,
    LevelComplete,
    NextLevel,
}

/// The game session: the playfield size, the trail window, the player, the
/// enemy roster and the top-level state.
pub struct Boxes {
    pub window_size: Size,
    pub trail: Trail,
    pub player: Player,
    pub enemies: Vec<Enemy>,
    pub state: GameState,
}

/// The capture step for one enemy: a living enemy whose position lies within
/// the closed box turns `Dead` and its dying animation restarts; any other
/// enemy is untouched.
pub open spec fn spec_capture_one(e: Enemy, bb: BoundingBox, now_ms: u64) -> Enemy {
    if e.state is Alive && bb.spec_contains(e.position) {
        Enemy { state: EnemyState::Dead, animation_index: 0, animation_mark_ms: now_ms, ..e }
    } else {
        e
    }
}

/// The capture step over the whole roster.
pub open spec fn spec_capture(es: Seq<Enemy>, bb: BoundingBox, now_ms: u64) -> Seq<Enemy> {
    es.map_values(|e: Enemy| spec_capture_one(e, bb, now_ms))
}

/// One enemy's sampled action for the frame: 0 moves away from the target,
/// 1 holds, anything else moves toward it.
pub open spec fn spec_act_one(e: Enemy, a: u8, target: Point, s: Size, now_ms: u64) -> Enemy {
    if a == 0 {
        spec_move_away(e, target, s, now_ms)
    } else if a == 1 {
        e
    } else {
        spec_move_toward(e, target, s, now_ms)
    }
}

/// The motion step over the whole roster, one sampled action per enemy.
pub open spec fn spec_act_all(es: Seq<Enemy>, acts: Seq<u8>, target: Point, s: Size, now_ms: u64) -> Seq<Enemy>
    recommends
        acts.len() == es.len(),
{
    Seq::new(es.len(), |i: int| spec_act_one(es[i], acts[i], target, s, now_ms))
}

/// The end-of-frame animation step for one enemy: only a `Dead` enemy's
/// dying animation ticks.
pub open spec fn spec_settle_one(e: Enemy, now_ms: u64) -> Enemy {
    if e.state is Dead {
        spec_dead_tick(e, now_ms)
    } else {
        e
    }
}

/// The end-of-frame animation step over the whole roster.
pub open spec fn spec_settle_all(es: Seq<Enemy>, now_ms: u64) -> Seq<Enemy> {
    es.map_values(|e: Enemy| spec_settle_one(e, now_ms))
}

/// The roster with every `Done` enemy removed, order kept.
pub open spec fn spec_remove_done(es: Seq<Enemy>) -> Seq<Enemy>
    decreases es.len(),
{
    if es.len() == 0 {
        Seq::empty()
    } else if es.first().state is Done {
        spec_remove_done(es.drop_first())
    } else {
        seq![es.first()] + spec_remove_done(es.drop_first())
    }
}

/// What one frame's roster outcome looks like for some sequence of sampled
/// actions: one action per enemy, each below 3.
pub open spec fn frame_actions_outcome(pre: Boxes, enemies_after: Seq<Enemy>, now_ms: u64, acts: Seq<u8>) -> bool {
    &&& acts.len() == pre.enemies@.len()
    &&& forall|i: int| 0 <= i < acts.len() ==> acts[i] < 3
    &&& enemies_after == pre.spec_enemies_after(now_ms, acts)
}

impl Boxes {
    /// The session's working invariant: the trail window holds one to four
    /// strokes and every coordinate stays in the working range.
    pub open spec fn wf(self) -> bool {
        &&& self.trail.wf()
        &&& self.trail.lines@.len() <= 4
        &&& wf_size(self.window_size)
        &&& wf_point(self.player.cur_position)
        &&& forall|i: int| 0 <= i < self.enemies@.len() ==> wf_enemy(#[trigger] self.enemies@[i])
    }

    /// The trail after the extension phase: unchanged while the player is
    /// stopped, otherwise extended from the previous to the current position,
    /// branching on an axis change.
    pub open spec fn spec_lines_after_extend(self) -> Seq<Line> {
        if self.player.cur_direction is Stopped {
            self.trail.lines@
        } else {
            Trail::spec_extend(
                self.trail.lines@,
                self.player.cur_position,
                self.player.prev_position,
                spec_changed_axis(self.player.prev_direction, self.player.cur_direction),
            )
        }
    }

    /// Whether the extended trail closes a loop this frame.
    pub open spec fn spec_closes_after_extend(self) -> bool {
        Trail::spec_closes(self.spec_lines_after_extend())
    }

    /// The bounding box of the loop the extended trail closes.
    pub open spec fn spec_capture_box(self) -> BoundingBox {
        spec_loop_box(
            self.spec_lines_after_extend().first(),
            self.spec_lines_after_extend().last(),
        )
    }

    /// The trail at the end of the frame: reset on a closed loop, then
    /// trimmed to the four-stroke window.
    pub open spec fn spec_lines_after(self) -> Seq<Line> {
        Trail::spec_trim(
            if self.spec_closes_after_extend() {
                Trail::spec_reset(self.player.cur_position)
            } else {
                self.spec_lines_after_extend()
            },
        )
    }

    /// The player at the end of the frame: a closed loop snapshots the
    /// current position into the previous one as part of the trail reset.
    pub open spec fn spec_player_after(self) -> Player {
        if self.spec_closes_after_extend() {
            Player { prev_position: self.player.cur_position, ..self.player }
        } else {
            self.player
        }
    }

    /// The roster at the end of the frame: captured by the loop's box when
    /// one closes, then moved by the sampled actions.
    pub open spec fn spec_enemies_after(self, now_ms: u64, acts: Seq<u8>) -> Seq<Enemy> {
        let captured = if self.spec_closes_after_extend() {
            spec_capture(self.enemies@, self.spec_capture_box(), now_ms)
        } else {
            self.enemies@
        };
        spec_act_all(captured, acts, self.player.cur_position, self.window_size, now_ms)
    }

    /// A fresh session: the player at the spawn point, a zero-length trail
    /// there, two passive enemies along the bottom of the field, playing.
    pub fn new(width: u32, height: u32, now_ms: u64) -> (b: Boxes)
        requires
            width <= 1000000000,
            height <= 1000000000,
        ensures
            b.window_size == (Size { width: width as i32, height: height as i32 }),
            b.trail.lines@ == Trail::spec_reset(Point { x: START_X, y: START_Y }),
            b.player == (Player {
                cur_position: Point { x: START_X, y: START_Y },
                prev_position: Point { x: START_X, y: START_Y },
                cur_direction: Direction::Stopped,
                prev_direction: Direction::Stopped,
                state: crate::player::PlayerState::Alive,
                height: SPRITE_WIDTH,
                width: SPRITE_WIDTH,
            }),
            b.enemies@ =~= seq![
                Enemy {
                    aggressive: false,
                    position: Point { x: 100, y: (height - 32) as i32 },
                    height: SPRITE_WIDTH,
                    width: SPRITE_WIDTH,
                    state: EnemyState::Alive,
                    animation_index: 0,
                    animation_mark_ms: now_ms,
                },
                Enemy {
                    aggressive: false,
                    position: Point { x: 300, y: (height - 32) as i32 },
                    height: SPRITE_WIDTH,
                    width: SPRITE_WIDTH,
                    state: EnemyState::Alive,
                    animation_index: 0,
                    animation_mark_ms: now_ms,
                },
            ],
            b.state is Playing,
            b.wf(),
    {
        let h = (height as i32) - SPRITE_WIDTH;
        let mut enemies: Vec<Enemy> = Vec::new();
        enemies.push(Enemy::new(100, h, SPRITE_WIDTH, SPRITE_WIDTH, false, now_ms));
        enemies.push(Enemy::new(300, h, SPRITE_WIDTH, SPRITE_WIDTH, false, now_ms));
        Boxes {
            window_size: Size { width: width as i32, height: height as i32 },
            trail: Trail::new(Point { x: START_X, y: START_Y }),
            player: Player::new(START_X, START_Y, SPRITE_WIDTH, SPRITE_WIDTH),
            enemies,
            state: GameState::Playing,
        }
    }

    /// One motion step of the player within the playfield.
    pub fn advance_player(&mut self)
        requires
            wf_point(old(self).player.cur_position),
            wf_size(old(self).window_size),
        ensures
            final(self).player == spec_player_update(old(self).player, old(self).window_size),
            final(self).trail.lines@ == old(self).trail.lines@,
            final(self).enemies@ == old(self).enemies@,
            final(self).window_size == old(self).window_size,
            final(self).state == old(self).state,
    {
        let p = self.player.update(self.window_size);
        self.player = p;
    }

    /// A press event for the player.
    pub fn button_pressed(&mut self, dir: Direction)
        ensures
            final(self).player == (Player { cur_direction: dir, ..old(self).player }),
            final(self).trail.lines@ == old(self).trail.lines@,
            final(self).enemies@ == old(self).enemies@,
            final(self).window_size == old(self).window_size,
            final(self).state == old(self).state,
    {
        self.player.button_pressed(dir);
    }

    /// A release event for the player.
    pub fn button_released(&mut self, dir: Direction)
        ensures
            final(self).player == (Player {
                cur_direction: if old(self).player.cur_direction == dir && !(dir is Stopped) {
                    Direction::Stopped
                } else {
                    old(self).player.cur_direction
                },
                ..old(self).player
            }),
            final(self).trail.lines@ == old(self).trail.lines@,
            final(self).enemies@ == old(self).enemies@,
            final(self).window_size == old(self).window_size,
            final(self).state == old(self).state,
    {
        self.player.button_released(dir);
    }

    /// Resets the trail to a zero-length stroke at the player's position,
    /// snapshotting the player's previous position.
    fn clear_lines(&mut self)
        ensures
            final(self).trail.lines@ == Trail::spec_reset(old(self).player.cur_position),
            final(self).player == (Player {
                prev_position: old(self).player.cur_position,
                ..old(self).player
            }),
            final(self).enemies@ == old(self).enemies@,
            final(self).window_size == old(self).window_size,
            final(self).state == old(self).state,
    {
        self.player.clear();
        let anchor = self.player.get_cur_position();
        self.trail.reset(anchor);
    }

    /// The core frame step: extends the trail while the player moves, tests
    /// the newest stroke against the oldest for loop closure, captures every
    /// living enemy inside a closed loop's box and resets the trail, trims
    /// the window, and moves each enemy by its sampled action.
    pub fn update_with_actions(&mut self, now_ms: u64, actions: &Vec<u8>)
        requires
            old(self).wf(),
            actions@.len() == old(self).enemies@.len(),
        ensures
            final(self).trail.lines@ == old(self).spec_lines_after(),
            final(self).player == old(self).spec_player_after(),
            final(self).enemies@ == old(self).spec_enemies_after(now_ms, actions@),
            final(self).window_size == old(self).window_size,
            final(self).state == old(self).state,
            final(self).trail.wf(),
            final(self).trail.lines@.len() <= 4,
            final(self).wf(),
    {
        if self.player.is_moving() {
            let cur = self.player.get_cur_position();
            let prev = self.player.get_prev_position();
            let axis = self.player.changed_axis();
            self.trail.extend_or_branch(cur, prev, axis);
        }
        if self.trail.lines.len() >= 4 {
            let closed = self.trail.closes_loop();
            match closed {
                Some(bb) => {
                    capture_enemies(&mut self.enemies, &bb, now_ms);
                    self.clear_lines();
                },
                None => {},
            }
        }
        self.trail.trim();
        act_enemies(&mut self.enemies, actions, &self.player, self.window_size, now_ms);
    }

    /// The core frame step with each enemy's action drawn uniformly from
    /// move-away, hold and move-toward.
    pub fn update(&mut self, now_ms: u64)
        requires
            old(self).wf(),
        ensures
            final(self).trail.lines@ == old(self).spec_lines_after(),
            final(self).player == old(self).spec_player_after(),
            final(self).window_size == old(self).window_size,
            final(self).state == old(self).state,
            final(self).trail.wf(),
            final(self).trail.lines@.len() <= 4,
            final(self).wf(),
            exists|acts: Seq<u8>| frame_actions_outcome(
                *old(self),
                final(self).enemies@,
                now_ms,
                acts,
            ),
    {
        let ghost pre = *self;
        let n = self.enemies.len();
        let mut actions: Vec<u8> = Vec::new();
        let mut i: usize = 0;
        while i < n
            invariant
                i <= n,
                actions@.len() == i,
                forall|j: int| 0 <= j < i ==> actions@[j] < 3,
            decreases n - i,
        {
            actions.push(sample_action());
            i = i + 1;
        }
        self.update_with_actions(now_ms, &actions);
        proof {
            assert(frame_actions_outcome(pre, self.enemies@, now_ms, actions@));
        }
    }

    /// The end-of-frame pass the shell runs while rendering: ticks every
    /// dying enemy's animation, removes retired enemies from the roster, and
    /// moves a playing session to level-complete once the roster is empty.
    pub fn finish_frame(&mut self, now_ms: u64)
        requires
            forall|i: int| 0 <= i < old(self).enemies@.len() ==> (#[trigger] old(
                self,
            ).enemies@[i]).animation_index < 0x7fffffff,
        ensures
            final(self).enemies@ == spec_remove_done(
                spec_settle_all(old(self).enemies@, now_ms),
            ),
            final(self).state == (if spec_remove_done(
                spec_settle_all(old(self).enemies@, now_ms),
            ).len() == 0 && old(self).state is Playing {
                GameState::LevelComplete
            } else {
                old(self).state
            }),
            final(self).trail.lines@ == old(self).trail.lines@,
            final(self).player == old(self).player,
            final(self).window_size == old(self).window_size,
    {
        settle_enemies(&mut self.enemies, now_ms);
        remove_done(&mut self.enemies);
        if self.enemies.len() == 0 {
            match self.state {
                GameState::Playing => {
                    self.state = GameState::LevelComplete;
                },
                _ => {},
            }
        }
    }
}

/// Relies on rand's `Uniform` sampler: a draw from `Uniform::from(0..3)`
/// with the thread-local generator lies in the half-open range, below 3.
#[verifier::external_body]
fn sample_action() -> (r: u8)
    ensures
        r < 3,
{
    let between: rand::distributions::Uniform<u8> = rand::distributions::Uniform::from(0u8..3u8);
    let mut rng = rand::thread_rng();
    rand::distributions::Distribution::sample(&between, &mut rng)
}

/// Applies the capture step to every enemy in the roster.
fn capture_enemies(enemies: &mut Vec<Enemy>, bb: &BoundingBox, now_ms: u64)
    requires
        forall|i: int| 0 <= i < old(enemies)@.len() ==> wf_enemy(#[trigger] old(enemies)@[i]),
    ensures
        final(enemies)@ == spec_capture(old(enemies)@, *bb, now_ms),
        forall|i: int| 0 <= i < final(enemies)@.len() ==> wf_enemy(#[trigger] final(enemies)@[i]),
{
    let ghost orig = enemies@;
    let mut out: Vec<Enemy> = Vec::new();
    let mut i: usize = 0;
    while i < enemies.len()
        invariant
            i <= enemies@.len(),
            enemies@ == orig,
            forall|k: int| 0 <= k < orig.len() ==> wf_enemy(#[trigger] orig[k]),
            out@.len() == i,
            forall|j: int| 0 <= j < i ==> out@[j] == spec_capture_one(orig[j], *bb, now_ms),
            forall|j: int| 0 <= j < i ==> wf_enemy(#[trigger] out@[j]),
        decreases enemies@.len() - i,
    {
        let mut e = enemies[i];
        if e.is_alive() && bb.contains(e.get_position()) {
            e.dead(now_ms);
        }
        out.push(e);
        i = i + 1;
    }
    proof {
        assert(out@ =~= spec_capture(orig, *bb, now_ms));
    }
    *enemies = out;
}

/// Moves every enemy in the roster by its sampled action.
fn act_enemies(enemies: &mut Vec<Enemy>, actions: &Vec<u8>, player: &Player, s: Size, now_ms: u64)
    requires
        actions@.len() == old(enemies)@.len(),
        forall|i: int| 0 <= i < old(enemies)@.len() ==> wf_enemy(#[trigger] old(enemies)@[i]),
        wf_size(s),
    ensures
        final(enemies)@ == spec_act_all(old(enemies)@, actions@, player.cur_position, s, now_ms),
        forall|i: int| 0 <= i < final(enemies)@.len() ==> wf_enemy(#[trigger] final(enemies)@[i]),
{
    let ghost orig = enemies@;
    let mut out: Vec<Enemy> = Vec::new();
    let mut i: usize = 0;
    while i < enemies.len()
        invariant
            i <= enemies@.len(),
            enemies@ == orig,
            actions@.len() == orig.len(),
            forall|k: int| 0 <= k < orig.len() ==> wf_enemy(#[trigger] orig[k]),
            wf_size(s),
            out@.len() == i,
            forall|j: int| 0 <= j < i ==> out@[j] == spec_act_one(
                orig[j],
                actions@[j],
                player.cur_position,
                s,
                now_ms,
            ),
            forall|j: int| 0 <= j < i ==> wf_enemy(#[trigger] out@[j]),
        decreases enemies@.len() - i,
    {
        let mut e = enemies[i];
        let a = actions[i];
        if a == 0 {
            e.move_away_from_player(player, s, now_ms);
        } else if a == 1 {
        } else {
            e.move_toward_player(player, s, now_ms);
        }
        out.push(e);
        i = i + 1;
    }
    proof {
        assert(out@ =~= spec_act_all(orig, actions@, player.cur_position, s, now_ms));
    }
    *enemies = out;
}

/// Ticks every dying enemy's animation once.
fn settle_enemies(enemies: &mut Vec<Enemy>, now_ms: u64)
    requires
        forall|i: int| 0 <= i < old(enemies)@.len() ==> (#[trigger] old(
            enemies,
        )@[i]).animation_index < 0x7fffffff,
    ensures
        final(enemies)@ == spec_settle_all(old(enemies)@, now_ms),
{
    let ghost orig = enemies@;
    let mut out: Vec<Enemy> = Vec::new();
    let mut i: usize = 0;
    while i < enemies.len()
        invariant
            i <= enemies@.len(),
            enemies@ == orig,
            forall|k: int| 0 <= k < orig.len() ==> (#[trigger] orig[k]).animation_index
                < 0x7fffffff,
            out@.len() == i,
            forall|j: int| 0 <= j < i ==> out@[j] == spec_settle_one(orig[j], now_ms),
        decreases enemies@.len() - i,
    {
        let mut e = enemies[i];
        let is_dead = match e.get_state() {
            EnemyState::Dead => true,
            _ => false,
        };
        if is_dead {
            e.update_dead_animation(now_ms);
        }
        out.push(e);
        i = i + 1;
    }
    proof {
        assert(out@ =~= spec_settle_all(orig, now_ms));
    }
    *enemies = out;
}

/// Removes every retired enemy from the roster, keeping the order.
fn remove_done(enemies: &mut Vec<Enemy>)
    ensures
        final(enemies)@ == spec_remove_done(old(enemies)@),
{
    let ghost orig = enemies@;
    let mut out: Vec<Enemy> = Vec::new();
    let mut i: usize = 0;
    proof {
        assert(orig.skip(0) =~= orig);
        assert(out@ + spec_remove_done(orig) =~= spec_remove_done(orig));
    }
    while i < enemies.len()
        invariant
            i <= enemies@.len(),
            enemies@ == orig,
            out@ + spec_remove_done(orig.skip(i as int)) =~= spec_remove_done(orig),
        decreases enemies@.len() - i,
    {
        let e = enemies[i];
        let keep = match e.get_state() {
            EnemyState::Done => false,
            _ => true,
        };
        proof {
            let rest = orig.skip(i as int);
            assert(rest.len() > 0);
            assert(rest.first() == orig[i as int]);
            assert(rest.drop_first() =~= orig.skip(i as int + 1));
            if rest.first().state is Done {
                assert(spec_remove_done(rest) == spec_remove_done(orig.skip(i as int + 1)));
            } else {
                assert(spec_remove_done(rest) == seq![rest.first()] + spec_remove_done(
                    orig.skip(i as int + 1),
                ));
            }
        }
        if keep {
            out.push(e);
        }
        i = i + 1;
        proof {
            assert(out@ + spec_remove_done(orig.skip(i as int)) =~= spec_remove_done(orig));
        }
    }
    proof {
        assert(orig.skip(orig.len() as int) =~= Seq::<Enemy>::empty());
        assert(out@ =~= spec_remove_done(orig));
    }
    *enemies = out;
}

/// An enemy alive and strictly inside the loop's box is captured, turning
/// `Dead`; one whose position is strictly outside on either axis is
/// untouched by the capture step.
pub proof fn lemma_capture_strict(es: Seq<Enemy>, bb: BoundingBox, now_ms: u64, i: int)
    requires
        0 <= i < es.len(),
    ensures
        (es[i].state is Alive && bb.min_x < es[i].position.x < bb.max_x && bb.min_y
            < es[i].position.y < bb.max_y) ==> spec_capture(es, bb, now_ms)[i].state is Dead,
        (es[i].position.x < bb.min_x || es[i].position.x > bb.max_x || es[i].position.y < bb.min_y
            || es[i].position.y > bb.max_y) ==> spec_capture(es, bb, now_ms)[i] == es[i],
{
}

/// A roster whose enemies have all retired settles and empties, so the next
/// end-of-frame evaluation moves a playing session to level-complete.
pub proof fn lemma_roster_empty_completes(b: Boxes, now_ms: u64)
    requires
        b.state is Playing,
        forall|i: int| 0 <= i < b.enemies@.len() ==> (#[trigger] b.enemies@[i]).state is Done,
    ensures
        spec_remove_done(spec_settle_all(b.enemies@, now_ms)).len() == 0,
{
    let settled = spec_settle_all(b.enemies@, now_ms);
    assert(forall|i: int| 0 <= i < settled.len() ==> (#[trigger] settled[i]).state is Done);
    lemma_remove_done_all_done(settled);
}

/// Removing the retired enemies from an all-retired roster leaves nothing.
proof fn lemma_remove_done_all_done(es: Seq<Enemy>)
    requires
        forall|i: int| 0 <= i < es.len() ==> (#[trigger] es[i]).state is Done,
    ensures
        spec_remove_done(es).len() == 0,
    decreases es.len(),
{
    if es.len() > 0 {
        lemma_remove_done_all_done(es.drop_first());
    }
}

} // verus!
