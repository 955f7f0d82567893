use boxes::enemy::{Enemy, EnemyState};
use boxes::game::{Boxes, GameState};
use boxes::geometry::{Line, Point, Size};
use boxes::player::{Direction, Player};
use boxes::trail::Trail;

fn pt(x: i32, y: i32) -> Point {
    Point { x, y }
}

fn line(x0: i32, y0: i32, x1: i32, y1: i32) -> Line {
    Line::new(pt(x0, y0), pt(x1, y1))
}

fn hold_all(b: &Boxes) -> Vec<u8> {
    b.enemies.iter().map(|_| 1u8).collect()
}

/// One frame as the shell runs it: the player motion step, then any input
/// event, then the core update.
fn frame(b: &mut Boxes, press: Option<Direction>, now_ms: u64) {
    b.advance_player();
    if let Some(d) = press {
        b.button_pressed(d);
    }
    let actions = hold_all(b);
    b.update_with_actions(now_ms, &actions);
}

#[test]
fn new_session_layout() {
    let b = Boxes::new(800, 800, 0);
    assert_eq!(b.window_size, Size { width: 800, height: 800 });
    assert_eq!(b.trail.lines.len(), 1);
    assert_eq!(b.trail.lines[0].get_from(), pt(16, 16));
    assert_eq!(b.trail.lines[0].get_to(), pt(16, 16));
    assert_eq!(b.player.get_cur_position(), pt(16, 16));
    assert_eq!(b.player.get_cur_direction(), Direction::Stopped);
    assert_eq!(b.enemies.len(), 2);
    assert_eq!(b.enemies[0].get_position(), pt(100, 768));
    assert_eq!(b.enemies[1].get_position(), pt(300, 768));
    assert!(b.enemies.iter().all(|e| e.is_alive()));
    assert_eq!(b.state, GameState::Playing);
}

#[test]
fn capture_inside_inclusive_and_outside() {
    // A closed window: the last stroke properly crosses the first; its box
    // spans x in 0..=100, y in -50..=50.
    let trail = Trail {
        lines: vec![
            line(0, 0, 100, 0),
            line(100, 0, 100, 100),
            line(100, 100, 50, 50),
            line(50, 50, 50, -50),
        ],
    };
    let mut b = Boxes {
        window_size: Size { width: 800, height: 800 },
        trail,
        player: Player::new(16, 16, 32, 32),
        enemies: vec![
            Enemy::new(40, 20, 32, 32, false, 0),   // strictly inside
            Enemy::new(200, 20, 32, 32, false, 0),  // strictly outside on x
            Enemy::new(40, 60, 32, 32, false, 0),   // strictly outside on y
            Enemy::new(100, 50, 32, 32, false, 0),  // on the edge: inclusive
        ],
        state: GameState::Playing,
    };
    let actions = hold_all(&b);
    b.update_with_actions(0, &actions);
    assert_eq!(b.enemies[0].get_state(), EnemyState::Dead);
    assert_eq!(b.enemies[1].get_state(), EnemyState::Alive);
    assert_eq!(b.enemies[2].get_state(), EnemyState::Alive);
    assert_eq!(b.enemies[3].get_state(), EnemyState::Dead);
    // The capture reset the trail to a zero-length stroke at the player.
    assert_eq!(b.trail.lines.len(), 1);
    assert_eq!(b.trail.lines[0].get_from(), pt(16, 16));
    assert_eq!(b.trail.lines[0].get_to(), pt(16, 16));
}

#[test]
fn capture_leaves_dead_enemies_untouched() {
    let trail = Trail {
        lines: vec![
            line(0, 0, 100, 0),
            line(100, 0, 100, 100),
            line(100, 100, 50, 50),
            line(50, 50, 50, -50),
        ],
    };
    let mut dying = Enemy::new(40, 20, 32, 32, false, 0);
    dying.dead(5);
    let mut dying_clock = dying;
    let mut b = Boxes {
        window_size: Size { width: 800, height: 800 },
        trail,
        player: Player::new(16, 16, 32, 32),
        enemies: vec![dying],
        state: GameState::Playing,
    };
    let actions = hold_all(&b);
    b.update_with_actions(777, &actions);
    // Still dead, and its animation clock was not restarted by the capture.
    assert_eq!(b.enemies[0].get_state(), EnemyState::Dead);
    let (_, idx) = dying_clock.update_dead_animation(1006);
    assert_eq!(idx, 1);
    let mut from_session = b.enemies[0];
    let (_, idx) = from_session.update_dead_animation(1006);
    assert_eq!(idx, 1);
}

#[test]
fn square_loop_scenario() {
    let mut b = Boxes::new(800, 800, 0);
    // An extra enemy sits at (40, 40), inside the square the player draws.
    b.enemies.push(Enemy::new(40, 40, 32, 32, false, 0));

    // Right 50, down 50, left 50, up 50 units: a closed square.
    for f in 0u64..205 {
        let press = match f {
            0 => Some(Direction::Right),
            51 => Some(Direction::Down),
            102 => Some(Direction::Left),
            153 => Some(Direction::Up),
            _ => None,
        };
        frame(&mut b, press, 0);
    }

    // The fourth stroke crossed the first; the box spanned (16,16)-(66,67),
    // so the enemy at (40, 40) was captured.
    assert_eq!(b.enemies[2].get_state(), EnemyState::Dead);
    // The spawned enemies along the bottom stayed outside the loop.
    assert_eq!(b.enemies[0].get_state(), EnemyState::Alive);
    assert_eq!(b.enemies[1].get_state(), EnemyState::Alive);
    // The capture reset the trail at the player's position.
    assert_eq!(b.trail.lines.len(), 1);
    assert_eq!(b.trail.lines[0].get_from(), pt(16, 16));
    assert_eq!(b.trail.lines[0].get_to(), pt(16, 16));
}

#[test]
fn square_loop_box_from_scenario_strokes() {
    // The four strokes the square scenario leaves in the window at the
    // closing frame.
    let t = Trail {
        lines: vec![
            line(16, 16, 66, 16),
            line(66, 16, 67, 66),
            line(67, 66, 17, 67),
            line(17, 67, 16, 16),
        ],
    };
    let bb = t.closes_loop().expect("the square closes");
    assert_eq!((bb.min_x, bb.min_y, bb.max_x, bb.max_y), (16, 16, 66, 67));
    assert!(bb.contains(pt(40, 40)));
    assert!(!bb.contains(pt(200, 200)));
}

#[test]
fn trail_window_never_exceeds_four() {
    let mut b = Boxes::new(800, 800, 0);
    // Zig-zag: an axis change on every other frame would grow the window
    // without bound were it not trimmed.
    let dirs = [Direction::Right, Direction::Down];
    for f in 0u64..60 {
        let press = Some(dirs[(f % 2) as usize]);
        frame(&mut b, press, 0);
        assert!(b.trail.lines.len() <= 4);
        assert!(b.trail.lines.len() >= 1);
    }
}

#[test]
fn roster_empty_moves_playing_to_level_complete() {
    let mut b = Boxes::new(800, 800, 0);
    b.enemies[0].dead(0);
    b.enemies[1].dead(0);
    b.enemies[0].animation_index = 3;
    b.enemies[1].animation_index = 3;
    // While the dying animations still run the session stays in play.
    b.finish_frame(500);
    assert_eq!(b.enemies.len(), 2);
    assert_eq!(b.state, GameState::Playing);
    // The next tick retires both; removal empties the roster and the session
    // completes the level.
    b.finish_frame(1001);
    assert_eq!(b.enemies.len(), 0);
    assert_eq!(b.state, GameState::LevelComplete);
    // LevelComplete is stable.
    b.finish_frame(99999);
    assert_eq!(b.state, GameState::LevelComplete);
}

#[test]
fn finish_frame_keeps_living_enemies() {
    let mut b = Boxes::new(800, 800, 0);
    b.enemies[0].dead(0);
    b.enemies[0].animation_index = 3;
    b.finish_frame(1001);
    // The retired enemy left the roster; the living one remains.
    assert_eq!(b.enemies.len(), 1);
    assert_eq!(b.enemies[0].get_position(), pt(300, 768));
    assert_eq!(b.state, GameState::Playing);
}

#[test]
fn finish_frame_ticks_dying_animation() {
    let mut b = Boxes::new(800, 800, 0);
    b.enemies[0].dead(0);
    b.finish_frame(1001);
    assert_eq!(b.enemies[0].get_state(), EnemyState::Dead);
    assert_eq!(b.enemies[0].animation_index, 1);
    // The living enemy was not ticked.
    assert_eq!(b.enemies[1].animation_index, 0);
}

#[test]
fn update_with_random_actions_stays_sane() {
    let mut b = Boxes::new(800, 800, 0);
    // Inside the 250 ms cooldown no enemy moves, whatever was sampled.
    b.update(0);
    assert_eq!(b.enemies[0].get_position(), pt(100, 768));
    assert_eq!(b.enemies[1].get_position(), pt(300, 768));
    // Past the cooldown each enemy holds or moves by the sampled action:
    // toward (16,16), away from it, or not at all.
    b.update(250);
    assert_eq!(b.enemies.len(), 2);
    let a = b.enemies[0].get_position();
    assert!(a == pt(99, 767) || a == pt(100, 768) || a == pt(101, 768));
    let c = b.enemies[1].get_position();
    assert!(c == pt(299, 767) || c == pt(300, 768) || c == pt(301, 768));
    assert_eq!(b.state, GameState::Playing);
}

#[test]
fn update_while_stopped_leaves_trail() {
    let mut b = Boxes::new(800, 800, 0);
    let actions = hold_all(&b);
    b.update_with_actions(0, &actions);
    assert_eq!(b.trail.lines.len(), 1);
    assert_eq!(b.trail.lines[0].get_from(), pt(16, 16));
    assert_eq!(b.trail.lines[0].get_to(), pt(16, 16));
}

#[test]
fn session_buttons_reach_player() {
    let mut b = Boxes::new(800, 800, 0);
    b.button_pressed(Direction::Left);
    assert_eq!(b.player.get_cur_direction(), Direction::Left);
    b.button_released(Direction::Up);
    assert_eq!(b.player.get_cur_direction(), Direction::Left);
    b.button_released(Direction::Left);
    assert_eq!(b.player.get_cur_direction(), Direction::Stopped);
}
