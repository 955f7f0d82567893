//! The player-controlled cursor: direction input, per-frame motion and the
//! collision test against an enemy's body.

use vstd::prelude::*;

use crate::enemy::Enemy;
use crate::geometry::{max2, min2, wf_point, wf_size, Point, Size};

verus! {

/// The current movement command.
#[derive(Clone, Copy, Debug, PartialEq, Eq, Structural)]
pub enum Direction {
    Up,
    Down,
    Left,
    Right,
    Stopped,
}

/// Whether the player is still in play.
#[derive(Clone, Copy, Debug, PartialEq, Eq, Structural)]
pub enum PlayerState {
    Alive,
    Dead,
}

/// The player cursor.  `prev_direction` records the direction of the most
/// recent motion step and is compared against the current command to detect
/// axis changes, even while the player is momentarily stopped.
#[derive(Clone, Copy, Debug, PartialEq, Eq, Structural)]
pub struct Player {
    pub cur_position: Point,
    pub prev_position: Point,
    pub cur_direction: Direction,
    pub prev_direction: Direction,
    pub state: PlayerState,
    pub height: i32,
    pub width: i32,
}

/// A vertical and a horizontal direction, in either order, make an axis
/// change; `Stopped` on either side never does.
pub open spec fn spec_changed_axis(prev: Direction, cur: Direction) -> bool {
    match prev {
        Direction::Down | Direction::Up => match cur {
            Direction::Left | Direction::Right => true,
            _ => false,
        },
        Direction::Left | Direction::Right => match cur {
            Direction::Down | Direction::Up => true,
            _ => false,
        },
        _ => false,
    }
}

/// One motion step: the position moves one unit in the current direction,
/// clamped to the playfield interior with an 8-unit margin; the previous
/// position snapshots the position before the step, and the previous
/// direction records the direction whenever it is not `Stopped`.
pub open spec fn spec_player_update(p: Player, s: Size) -> Player {
    let stepped: Point = match p.cur_direction {
        Direction::Up => Point { x: p.cur_position.x, y: (p.cur_position.y - 1) as i32 },
        Direction::Down => Point { x: p.cur_position.x, y: (p.cur_position.y + 1) as i32 },
        Direction::Left => Point { x: (p.cur_position.x - 1) as i32, y: p.cur_position.y },
        Direction::Right => Point { x: (p.cur_position.x + 1) as i32, y: p.cur_position.y },
        Direction::Stopped => p.cur_position,
    };
    let clamped = Point {
        x: max2(min2(stepped.x as int, s.width - 8), 8) as i32,
        y: max2(min2(stepped.y as int, s.height - 8), 8) as i32,
    };
    Player {
        cur_position: clamped,
        prev_position: p.cur_position,
        cur_direction: p.cur_direction,
        prev_direction: if p.cur_direction is Stopped {
            p.prev_direction
        } else {
            p.cur_direction
        },
        state: p.state,
        height: p.height,
        width: p.width,
    }
}

/// The overlap test between the player's inset body box and an enemy's body
/// box, as the game draws them: x grows rightward and the boxes extend
/// upward, so the y comparisons run downward.
pub open spec fn spec_collided(p: Player, e: Enemy) -> bool {
    let e1x = e.position.x as int;
    let e1y = e.position.y as int;
    let e2x = e1x + e.width;
    let e2y = e1y - e.height;
    let p1x = p.cur_position.x + p.width / 4;
    let p1y = p.cur_position.y - p.height / 4;
    let p2x = p.cur_position.x + p.width - p.width / 4;
    let p2y = p.cur_position.y - p.height + p.height / 4;
    &&& ((p1x >= e1x && p1x <= e2x) || (p2x >= e1x && p2x <= e2x))
    &&& ((p1y <= e1y && p1y >= e2y) || (p2y <= e1y && p2y >= e2y))
}

impl Player {
    /// A freshly spawned player: stopped and alive at the given position.
    pub fn new(x: i32, y: i32, width: i32, height: i32) -> (p: Player)
        ensures
            p == (Player {
                cur_position: Point { x, y },
                prev_position: Point { x, y },
                cur_direction: Direction::Stopped,
                prev_direction: Direction::Stopped,
                state: PlayerState::Alive,
                height,
                width,
            }),
    {
        Player {
            cur_position: Point { x, y },
            prev_position: Point { x, y },
            cur_direction: Direction::Stopped,
            prev_direction: Direction::Stopped,
            state: PlayerState::Alive,
            height,
            width,
        }
    }

    /// Moves the player back to a spawn point and revives it.
    pub fn reset(&mut self, x: i32, y: i32)
        ensures
            *final(self) == (Player {
                cur_position: Point { x, y },
                prev_position: Point { x, y },
                state: PlayerState::Alive,
                ..*old(self)
            }),
    {
        self.cur_position = Point { x, y };
        self.prev_position = self.cur_position;
        self.state = PlayerState::Alive;
    }

    /// Marks the player dead.
    pub fn dead(&mut self)
        ensures
            *final(self) == (Player { state: PlayerState::Dead, ..*old(self) }),
    {
        self.state = PlayerState::Dead;
    }

    /// Whether the player has been marked dead.
    pub fn is_dead(&mut self) -> (r: bool)
        ensures
            *final(self) == *old(self),
            r == (old(self).state is Dead),
    {
        match self.state {
            PlayerState::Dead => true,
            PlayerState::Alive => false,
        }
    }

    /// Whether the player's inset body box overlaps the enemy's body box.
    pub fn collided(&mut self, enemy: &Enemy) -> (r: bool)
        requires
            wf_point(old(self).cur_position),
            0 <= old(self).width <= 1000000000,
            0 <= old(self).height <= 1000000000,
            wf_point(enemy.position),
            0 <= enemy.width <= 1000000000,
            0 <= enemy.height <= 1000000000,
        ensures
            *final(self) == *old(self),
            r == spec_collided(*old(self), *enemy),
    {
        let e1x = enemy.position.x;
        let e1y = enemy.position.y;
        let e2x = e1x + enemy.width;
        let e2y = e1y - enemy.height;
        let wq: i32 = ((self.width as u32) / 4) as i32;
        let hq: i32 = ((self.height as u32) / 4) as i32;
        let p1x = self.cur_position.x + wq;
        let p1y = self.cur_position.y - hq;
        let p2x = self.cur_position.x + self.width - wq;
        let p2y = self.cur_position.y - self.height + hq;
        ((p1x >= e1x && p1x <= e2x) || (p2x >= e1x && p2x <= e2x)) && ((p1y <= e1y && p1y >= e2y)
            || (p2y <= e1y && p2y >= e2y))
    }

    pub fn get_cur_direction(&self) -> (d: Direction)
        ensures
            d == self.cur_direction,
    {
        self.cur_direction
    }

    pub fn get_cur_position(&self) -> (p: Point)
        ensures
            p == self.cur_position,
    {
        self.cur_position
    }

    pub fn get_prev_position(&self) -> (p: Point)
        ensures
            p == self.prev_position,
    {
        self.prev_position
    }

    /// Snapshots the current position into the previous position.
    pub fn clear(&mut self)
        ensures
            *final(self) == (Player { prev_position: old(self).cur_position, ..*old(self) }),
    {
        self.prev_position = self.cur_position;
    }

    /// Whether a movement command is active.
    pub fn is_moving(&self) -> (r: bool)
        ensures
            r == !(self.cur_direction is Stopped),
    {
        match self.cur_direction {
            Direction::Stopped => false,
            _ => true,
        }
    }

    /// Whether the direction of the most recent motion step and the current
    /// command lie on different axes.
    pub fn changed_axis(&self) -> (r: bool)
        ensures
            r == spec_changed_axis(self.prev_direction, self.cur_direction),
    {
        match self.prev_direction {
            Direction::Down | Direction::Up => match self.cur_direction {
                Direction::Left | Direction::Right => true,
                _ => false,
            },
            Direction::Left | Direction::Right => match self.cur_direction {
                Direction::Down | Direction::Up => true,
                _ => false,
            },
            _ => false,
        }
    }

    /// One motion step, returning the updated player by copy.
    pub fn update(&self, size: Size) -> (p: Player)
        requires
            wf_point(self.cur_position),
            wf_size(size),
        ensures
            p == spec_player_update(*self, size),
    {
        let mut player = Player { prev_position: self.cur_position, ..*self };
        match self.cur_direction {
            Direction::Up => {
                player.cur_position.y = player.cur_position.y - 1;
            },
            Direction::Down => {
                player.cur_position.y = player.cur_position.y + 1;
            },
            Direction::Left => {
                player.cur_position.x = player.cur_position.x - 1;
            },
            Direction::Right => {
                player.cur_position.x = player.cur_position.x + 1;
            },
            Direction::Stopped => {},
        }
        let hi_x = size.width - 8;
        let hi_y = size.height - 8;
        player.cur_position.x = if player.cur_position.x <= hi_x {
            player.cur_position.x
        } else {
            hi_x
        };
        player.cur_position.x = if player.cur_position.x >= 8 {
            player.cur_position.x
        } else {
            8
        };
        player.cur_position.y = if player.cur_position.y <= hi_y {
            player.cur_position.y
        } else {
            hi_y
        };
        player.cur_position.y = if player.cur_position.y >= 8 {
            player.cur_position.y
        } else {
            8
        };
        match player.cur_direction {
            Direction::Stopped => {},
            _ => {
                player.prev_direction = player.cur_direction;
            },
        }
        player
    }

    /// A press event: the key's direction becomes the current command.
    pub fn button_pressed(&mut self, dir: Direction)
        ensures
            *final(self) == (Player { cur_direction: dir, ..*old(self) }),
    {
        self.cur_direction = dir;
    }

    /// A release event: clears the command only when it matches the released
    /// key's direction; releasing any other key is a no-op.
    pub fn button_released(&mut self, dir: Direction)
        ensures
            *final(self) == (Player {
                cur_direction: if old(self).cur_direction == dir && !(dir is Stopped) {
                    Direction::Stopped
                } else {
                    old(self).cur_direction
                },
                ..*old(self)
            }),
    {
        let matches_dir = match (self.cur_direction, dir) {
            (Direction::Up, Direction::Up) => true,
            (Direction::Down, Direction::Down) => true,
            (Direction::Left, Direction::Left) => true,
            (Direction::Right, Direction::Right) => true,
            _ => false,
        };
        if matches_dir {
            self.cur_direction = Direction::Stopped;
        }
    }
}

} // verus!
