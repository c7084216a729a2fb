use flappy_dragon::obstacle::Obstacle;
use flappy_dragon::player::Player;
use flappy_dragon::state::{GameMode, Key, State};
use flappy_dragon::{SCREEN_WIDTH, SUBCELLS};

#[test]
fn gap_size_floors_at_two() {
    for score in 18..200 {
        assert_eq!(Obstacle::size_for_score(score), 2);
    }
    assert_eq!(Obstacle::size_for_score(i32::MAX), 2);
}

#[test]
fn gap_size_shrinks_by_one_per_point() {
    for score in 0..18 {
        assert_eq!(Obstacle::size_for_score(score), 20 - score);
    }
    assert_eq!(Obstacle::size_for_score(0), 20);
    assert_eq!(Obstacle::size_for_score(17), 3);
}

#[test]
fn player_starts_still() {
    let p = Player::new(5, 25);
    assert_eq!((p.x, p.y, p.velocity, p.frame), (5, 250, 0, 0));
}

#[test]
fn advance_never_goes_above_top() {
    let mut p = Player { x: 0, y: 0, velocity: -1000, frame: 0 };
    for _ in 0..20 {
        p.gravity_and_move();
        assert!(p.y >= 0);
    }
    let mut q = Player::new(3, 1);
    q.flap();
    q.gravity_and_move();
    assert_eq!(q.y, 0);
    assert_eq!(q.x, 4);
    assert_eq!(q.velocity, -18);
}

#[test]
fn flap_overrides_velocity() {
    for v in [-50, -20, 0, 7, 20, 300] {
        let mut p = Player { x: 1, y: 100, velocity: v, frame: 0 };
        p.flap();
        assert_eq!(p.velocity, -20);
        p.flap();
        assert_eq!(p.velocity, -20);
        assert_eq!((p.x, p.y), (1, 100));
    }
}

#[test]
fn gravity_accelerates_until_terminal_velocity() {
    let mut p = Player::new(0, 0);
    let mut expected_y = 0;
    for i in 1..=10 {
        p.gravity_and_move();
        assert_eq!(p.velocity, 2 * i);
        expected_y += 2 * i;
        assert_eq!(p.y, expected_y);
    }
    for _ in 0..5 {
        p.gravity_and_move();
        assert_eq!(p.velocity, 20);
    }
    assert_eq!(p.x, 15);
}

#[test]
fn gravity_stops_at_terminal_velocity() {
    let mut p = Player { x: 0, y: 100, velocity: 19, frame: 0 };
    p.gravity_and_move();
    assert_eq!(p.velocity, 20);
    assert_eq!(p.y, 120);
    p.gravity_and_move();
    assert_eq!(p.velocity, 20);
    let mut q = Player { x: 0, y: 100, velocity: 25, frame: 0 };
    q.gravity_and_move();
    assert_eq!(q.velocity, 25);
    let mut r = Player { x: 0, y: 100, velocity: 17, frame: 0 };
    r.gravity_and_move();
    assert_eq!(r.velocity, 19);
    r.gravity_and_move();
    assert_eq!(r.velocity, 20);
}

#[test]
fn collision_outside_gap() {
    let o = Obstacle { x: 10, gap_y: 25, size: 10 };
    let p = Player::new(10, 5);
    assert!(o.hit_obstacle(&p));
}

#[test]
fn no_collision_inside_gap() {
    let o = Obstacle { x: 10, gap_y: 25, size: 10 };
    let p = Player::new(10, 25);
    assert!(!o.hit_obstacle(&p));
}

#[test]
fn collision_window_edges_and_column() {
    let o = Obstacle { x: 10, gap_y: 25, size: 10 };
    assert!(!o.hit_obstacle(&Player::new(10, 20)));
    assert!(!o.hit_obstacle(&Player::new(10, 30)));
    assert!(o.hit_obstacle(&Player::new(10, 19)));
    assert!(o.hit_obstacle(&Player::new(10, 31)));
    assert!(!o.hit_obstacle(&Player::new(9, 5)));
    assert!(!o.hit_obstacle(&Player::new(11, 5)));
    // A fraction of a row below the window still counts as its last row.
    let p = Player { x: 10, y: 309, velocity: 0, frame: 0 };
    assert!(!o.hit_obstacle(&p));
}

#[test]
fn obstacle_drawing_geometry() {
    let o = Obstacle { x: 90, gap_y: 25, size: 9 };
    assert_eq!(o.screen_column(5), 85);
    assert_eq!(o.wall_spans(), ((0, 21), (29, 34)));
}

#[test]
fn player_glyph_cycle() {
    let glyphs: Vec<u16> = (0..7)
        .map(|f| Player { x: 0, y: 0, velocity: 0, frame: f }.glyph())
        .collect();
    assert_eq!(glyphs, vec![64, 1, 2, 3, 2, 1, 64]);
    assert_eq!(Player::new(0, 3).row(), 3);
}

#[test]
fn new_game_is_on_menu() {
    let s = State::with_seed(1);
    assert_eq!(s.mode, GameMode::Menu);
    assert_eq!(s.score, 0);
    assert_eq!(s.obstacle.x, SCREEN_WIDTH + 10);
    assert_eq!(s.obstacle.size, 20);
    let t = State::new();
    assert_eq!(t.mode, GameMode::Menu);
}

#[test]
fn start_from_menu_resets_round() {
    let mut s = State::with_seed(7);
    s.score = 4;
    s.player.x = 60;
    let quit = s.tick(16_000, Some(Key::P));
    assert!(!quit);
    assert_eq!(s.mode, GameMode::Playing);
    assert_eq!(s.score, 0);
    assert_eq!((s.player.x, s.player.y, s.player.velocity), (5, 25 * SUBCELLS, 0));
    assert_eq!(s.frame_time, 0);
    assert_eq!(s.obstacle.x, SCREEN_WIDTH);
    assert_eq!(s.obstacle.size, 20);
}

#[test]
fn quit_and_other_keys_on_menu() {
    let mut s = State::with_seed(3);
    assert!(s.tick(0, Some(Key::Q)));
    assert_eq!(s.mode, GameMode::Menu);
    assert!(!s.tick(0, Some(Key::Space)));
    assert!(!s.tick(0, None));
    assert_eq!(s.mode, GameMode::Menu);
}

#[test]
fn falling_below_screen_ends_round() {
    let mut s = State::with_seed(11);
    s.restart();
    s.player.y = 51 * SUBCELLS;
    let quit = s.tick(0, None);
    assert!(!quit);
    assert_eq!(s.mode, GameMode::End);
}

#[test]
fn row_fifty_is_still_on_screen() {
    let mut s = State::with_seed(11);
    s.restart();
    s.player.y = 50 * SUBCELLS + 9;
    s.tick(0, None);
    assert_eq!(s.mode, GameMode::Playing);
}

#[test]
fn passing_obstacle_scores_and_replaces_it() {
    let mut s = State::with_seed(5);
    s.restart();
    s.player.x = 100;
    s.obstacle.x = 99;
    s.tick(0, None);
    assert_eq!(s.score, 1);
    assert_eq!(s.obstacle.x, 100 + SCREEN_WIDTH);
    assert_eq!(s.obstacle.size, 19);
    assert!((10..40).contains(&s.obstacle.gap_y));
    assert_eq!(s.mode, GameMode::Playing);
}

#[test]
fn physics_step_waits_for_frame_duration() {
    let mut s = State::with_seed(2);
    s.restart();
    s.tick(75_000, None);
    assert_eq!(s.player.x, 5);
    assert_eq!(s.frame_time, 75_000);
    s.tick(1, None);
    assert_eq!(s.player.x, 6);
    assert_eq!(s.player.y, 252);
    assert_eq!(s.frame_time, 0);
    s.tick(40_000, None);
    s.tick(40_000, None);
    assert_eq!(s.player.x, 7);
    assert_eq!(s.player.velocity, 4);
}

#[test]
fn flap_in_play_applies_any_frame() {
    let mut s = State::with_seed(2);
    s.restart();
    s.tick(10, Some(Key::Space));
    assert_eq!(s.player.velocity, -20);
    assert_eq!(s.player.x, 5);
    s.tick(0, Some(Key::Q));
    assert_eq!(s.mode, GameMode::Playing);
}

#[test]
fn hitting_obstacle_ends_round_and_restart_works() {
    let mut s = State::with_seed(9);
    s.restart();
    s.obstacle = Obstacle { x: 6, gap_y: 10, size: 4 };
    s.tick(80_000, None);
    assert_eq!(s.player.x, 6);
    assert_eq!(s.mode, GameMode::End);
    assert!(!s.tick(0, None));
    assert_eq!(s.mode, GameMode::End);
    assert!(!s.tick(0, Some(Key::P)));
    assert_eq!(s.mode, GameMode::Playing);
    assert_eq!(s.score, 0);
}

#[test]
fn gap_centers_are_drawn_in_range_and_vary() {
    let mut s = State::with_seed(42);
    let mut seen = Vec::new();
    for _ in 0..50 {
        s.restart();
        assert!((10..40).contains(&s.obstacle.gap_y));
        seen.push(s.obstacle.gap_y);
    }
    assert!(seen.iter().any(|&g| g != seen[0]));
    assert!(seen.iter().any(|&g| g != 10));
}

#[test]
fn obstacle_with_gap_is_exact() {
    let o = Obstacle::with_gap(33, 17, 6);
    assert_eq!((o.x, o.gap_y, o.size), (33, 17, 14));
}
