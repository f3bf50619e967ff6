use jpong::ball::Ball;
use jpong::game::{GameState, KeyState, PaddleKey};
use jpong::paddle::Paddle;

#[test]
fn fresh_match_is_at_rest() {
    let g = GameState::new(false);
    assert_eq!(g.ball.x, 0);
    assert_eq!(g.ball.y, 0);
    assert!(!g.ball.going_right);
    assert!(!g.ball.going_down);
    assert_eq!(g.player1.pos, 0);
    assert_eq!(g.player2.pos, 0);
    assert_eq!(g.score1, 0);
    assert_eq!(g.score2, 0);
    assert!(!g.win_hold);
}

#[test]
fn first_frame_moves_ball_toward_player1() {
    let mut g = GameState::new(false);
    g.step(0);
    assert_eq!(g.ball.x, -1);
    assert_eq!(g.ball.y, -1);
    assert_eq!(g.score1, 0);
    assert_eq!(g.score2, 0);
}

#[test]
fn resting_paddle_returns_the_serve() {
    // The serve flies toward (-77, -77); player 1's resting face covers
    // y from -100 to -50, so the ball turns around there.
    let mut g = GameState::new(false);
    for frame in 1..=77u64 {
        g.step(frame);
    }
    assert_eq!(g.ball.x, -77);
    assert_eq!(g.ball.y, -77);
    assert!(g.ball.going_right);
    g.step(78);
    assert_eq!(g.ball.x, -76);
}

#[test]
fn missed_ball_scores_for_player1() {
    // After the return off player 1, the ball reaches player 2's plane at
    // (77, 37), below the resting face, and runs on to the score line.
    let mut g = GameState::new(false);
    for frame in 1..=254u64 {
        g.step(frame);
    }
    assert_eq!(g.score1, 1);
    assert_eq!(g.score2, 0);
    assert_eq!(g.ball.x, 0);
    assert_eq!(g.ball.y, 0);
    assert!(g.ball.going_right);
}

#[test]
fn serve_after_a_point_keeps_heading() {
    // The ball re-serves toward player 2 and this time meets the face at
    // (77, 57), turning back.
    let mut g = GameState::new(false);
    for frame in 1..=331u64 {
        g.step(frame);
    }
    assert_eq!(g.ball.x, 77);
    assert!(!g.ball.going_right);
    assert_eq!(g.score1, 1);
    assert_eq!(g.score2, 0);
}

#[test]
fn raised_paddle_lets_the_serve_through() {
    let mut g = GameState::new(false);
    g.player1 = Paddle { pos: 150, vel: 0 };
    g.ball = Ball { x: -76, y: 0, going_right: false, going_down: false };
    g.step(0);
    // Player 1's face now covers y from 50 to 100: the ball at y = -1
    // passes behind it.
    assert_eq!(g.ball.x, -77);
    assert!(!g.ball.going_right);
    for frame in 1..=23u64 {
        g.step(frame);
    }
    assert_eq!(g.score2, 1);
    assert_eq!(g.ball.x, 0);
    assert_eq!(g.ball.y, 0);
}

#[test]
fn keys_steer_player1() {
    let mut g = GameState::new(false);
    g.apply_key(PaddleKey::Player1Up, KeyState::Pressed);
    g.apply_key(PaddleKey::Player1Up, KeyState::Pressed);
    assert_eq!(g.player1.vel, -4);
    g.apply_key(PaddleKey::Player1Up, KeyState::Released);
    assert_eq!(g.player1.vel, -4);
    g.apply_key(PaddleKey::Player1Down, KeyState::Released);
    assert_eq!(g.player1.vel, 4);
    g.apply_key(PaddleKey::Player1Down, KeyState::Pressed);
    assert_eq!(g.player1.vel, 6);
}

#[test]
fn keys_steer_player2_in_a_two_player_match() {
    let mut g = GameState::new(false);
    g.apply_key(PaddleKey::Player2Up, KeyState::Pressed);
    assert_eq!(g.player2.vel, 2);
    g.apply_key(PaddleKey::Player2Down, KeyState::Released);
    assert_eq!(g.player2.vel, -4);
}

#[test]
fn player2_keys_do_nothing_in_single_player() {
    let mut g = GameState::new(true);
    g.apply_key(PaddleKey::Player2Up, KeyState::Pressed);
    g.apply_key(PaddleKey::Player2Down, KeyState::Released);
    assert_eq!(g.player2.vel, 0);
    assert_eq!(g.player2.pos, 0);
}

#[test]
fn paddle_glides_and_stops_after_release() {
    let mut g = GameState::new(false);
    g.apply_key(PaddleKey::Player1Down, KeyState::Released);
    for frame in 1..=10u64 {
        g.step(frame);
    }
    // Coasting at 4 moves the paddle 4 + 3 + 2 + 1 units, then it rests.
    assert_eq!(g.player1.pos, 10);
    assert_eq!(g.player1.vel, 0);
}

#[test]
fn unmanned_paddle_sweeps_in_single_player() {
    let mut g = GameState::new(true);
    g.step(0);
    assert_eq!(g.player2.pos, 1);
    for frame in 1..=149u64 {
        g.step(frame);
    }
    assert_eq!(g.player2.pos, 150);
    g.step(151);
    assert_eq!(g.player2.pos, 149);
}

#[test]
fn winning_point_starts_the_hold() {
    let mut g = GameState::new(false);
    g.score1 = 8;
    g.ball = Ball { x: 99, y: 10, going_right: true, going_down: true };
    g.step(5000);
    assert_eq!(g.score1, 9);
    assert!(g.win_hold);
    assert_eq!(g.win_since_ms, 5000);
    assert_eq!(g.ball.x, 0);
    assert_eq!(g.ball.y, 0);
}

#[test]
fn hold_keeps_scores_and_ball_until_time_runs_out() {
    let mut g = GameState::new(false);
    g.score1 = 8;
    g.ball = Ball { x: 99, y: 10, going_right: true, going_down: true };
    g.step(5000);
    g.step(8000);
    // Exactly the hold length has passed: the hold only ends strictly after.
    assert!(g.win_hold);
    assert_eq!(g.score1, 9);
    assert_eq!(g.ball.x, 0);
    assert_eq!(g.ball.y, 0);
    g.step(8001);
    assert!(!g.win_hold);
    assert_eq!(g.score1, 0);
    assert_eq!(g.score2, 0);
    assert_eq!(g.ball.x, 0);
    assert_eq!(g.ball.y, 0);
}
