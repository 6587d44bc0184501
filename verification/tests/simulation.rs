use good_game_rusty_pong::ball::Ball;
use good_game_rusty_pong::game_state::GameState;
use good_game_rusty_pong::input::{Input, InputStatus};
use good_game_rusty_pong::{
    EDGE_LEFT, EDGE_RIGHT, INITIAL_VELOCITY, MIDDLE_POS_X, MIDDLE_POS_Y, PADDLE_BOTTOM_LIMIT,
    PADDLE_STEP,
};

#[test]
fn first_frame_without_input() {
    let mut state = GameState::new();
    assert_eq!(state.frame, 0);
    assert_eq!(state.ball.pos_x, MIDDLE_POS_X);
    assert_eq!(state.ball.pos_y, MIDDLE_POS_Y);
    assert_eq!(state.left_paddle.pos, PADDLE_BOTTOM_LIMIT);
    assert_eq!(state.right_paddle.pos, PADDLE_BOTTOM_LIMIT);
    assert_eq!(state.left_paddle.score, 0);
    assert_eq!(state.right_paddle.score, 0);

    let cue = state.advance(vec![]);

    assert_eq!(cue, None);
    assert_eq!(state.frame, 1);
    assert_eq!(state.left_paddle.vel, 0);
    assert_eq!(state.right_paddle.vel, 0);
    assert_eq!(state.left_paddle.pos, PADDLE_BOTTOM_LIMIT);
    assert_eq!(state.right_paddle.pos, PADDLE_BOTTOM_LIMIT);
    assert_eq!(state.ball.pos_x, MIDDLE_POS_X + INITIAL_VELOCITY);
    assert_eq!(state.ball.pos_y, MIDDLE_POS_Y + INITIAL_VELOCITY);
    assert_eq!(state.ball.vel_x, INITIAL_VELOCITY);
    assert_eq!(state.ball.vel_y, INITIAL_VELOCITY);
}

#[test]
fn disconnected_sources_are_neutral() {
    let mut state = GameState::new();
    state.left_paddle.vel = -PADDLE_STEP;
    state.right_paddle.vel = PADDLE_STEP;

    let inputs = vec![
        (Input { inp: 0b1111 }, InputStatus::Disconnected),
        (Input { inp: 0b0101 }, InputStatus::Disconnected),
    ];
    state.advance(inputs);

    assert_eq!(state.left_paddle.vel, 0);
    assert_eq!(state.right_paddle.vel, 0);
}

#[test]
fn up_only_input_moves_left_paddle_up() {
    let mut state = GameState::new();
    state.left_paddle.pos = 101;

    for frame in 1..=3 {
        state.advance(vec![(Input { inp: 0b0001 }, InputStatus::Confirmed)]);
        assert_eq!(state.left_paddle.vel, -PADDLE_STEP);
        assert_eq!(state.left_paddle.pos, 101 - frame * PADDLE_STEP);
    }
}

#[test]
fn opposing_bits_cancel() {
    let mut state = GameState::new();
    state.left_paddle.pos = 101;
    state.right_paddle.pos = 101;

    // One source holds both left bits; the right paddle gets up from one
    // source and down from another.
    let inputs = vec![
        (Input { inp: 0b1011 }, InputStatus::Confirmed),
        (Input { inp: 0b0100 }, InputStatus::Predicted),
    ];
    state.advance(inputs);

    assert_eq!(state.left_paddle.vel, 0);
    assert_eq!(state.left_paddle.pos, 101);
    assert_eq!(state.right_paddle.vel, 0);
    assert_eq!(state.right_paddle.pos, 101);
}

#[test]
fn predicted_input_counts() {
    let mut state = GameState::new();
    state.right_paddle.pos = 101;

    state.advance(vec![(Input { inp: 0b0100 }, InputStatus::Predicted)]);

    assert_eq!(state.right_paddle.vel, PADDLE_STEP);
    assert_eq!(state.right_paddle.pos, 101 + PADDLE_STEP);
}

#[test]
fn bounce_cues_alternate() {
    let mut state = GameState::new();

    state.ball.pos_x = EDGE_RIGHT;
    let cue = state.advance(vec![]);
    assert_eq!(cue, Some(0));
    assert_eq!(state.ball.vel_x, -INITIAL_VELOCITY);

    state.ball.pos_x = EDGE_LEFT;
    let cue = state.advance(vec![]);
    assert_eq!(cue, Some(1));
    assert_eq!(state.ball.vel_x, INITIAL_VELOCITY);

    // No bounce: no cue, and the cue index stays where it was.
    state.ball.pos_x = MIDDLE_POS_X;
    state.ball.pos_y = MIDDLE_POS_Y;
    let cue = state.advance(vec![]);
    assert_eq!(cue, None);

    state.ball.pos_x = EDGE_RIGHT;
    let cue = state.advance(vec![]);
    assert_eq!(cue, Some(0));
}

#[test]
fn right_boundary_miss_scores_left() {
    let mut state = GameState::new();
    state.ball.pos_x = EDGE_RIGHT + 3;
    state.ball.pos_y = 200;
    state.right_paddle.pos = 100;

    let match_over = state.resolve_score();

    assert_eq!(match_over, false);
    assert_eq!(state.left_paddle.score, 1);
    assert_eq!(state.right_paddle.score, 0);
    assert_eq!(state.ball.pos_x, MIDDLE_POS_X);
    assert_eq!(state.ball.pos_y, MIDDLE_POS_Y);
}

#[test]
fn left_boundary_miss_scores_right() {
    let mut state = GameState::new();
    state.ball.pos_x = EDGE_LEFT - 3;
    state.ball.pos_y = 200;
    state.left_paddle.pos = 100;

    let match_over = state.resolve_score();

    assert_eq!(match_over, false);
    assert_eq!(state.right_paddle.score, 1);
    assert_eq!(state.ball.pos_x, MIDDLE_POS_X);
    assert_eq!(state.ball.pos_y, MIDDLE_POS_Y);
}

#[test]
fn defended_crossing_does_not_score() {
    let mut state = GameState::new();
    state.ball.pos_x = EDGE_RIGHT + 3;
    state.ball.pos_y = 120;
    state.right_paddle.pos = 100;
    let before_x = state.ball.pos_x;

    let match_over = state.resolve_score();

    assert_eq!(match_over, false);
    assert_eq!(state.left_paddle.score, 0);
    assert_eq!(state.right_paddle.score, 0);
    assert_eq!(state.ball.pos_x, before_x);
}

#[test]
fn fifth_point_ends_match() {
    let mut state = GameState::new();
    state.left_paddle.score = 4;
    state.ball.pos_x = EDGE_RIGHT + 3;
    state.ball.pos_y = 200;
    state.right_paddle.pos = 100;

    let match_over = state.resolve_score();

    assert_eq!(match_over, true);
    assert_eq!(state.left_paddle.score, 5);
}

#[test]
fn score_reset_keeps_ball_velocity() {
    let mut state = GameState::new();
    state.ball.pos_x = EDGE_RIGHT + 3;
    state.ball.pos_y = 200;
    state.ball.vel_x = -INITIAL_VELOCITY;
    state.right_paddle.pos = 100;

    state.resolve_score();

    assert_eq!(state.ball.vel_x, -INITIAL_VELOCITY);
    assert_eq!(state.ball.vel_y, INITIAL_VELOCITY);
}

#[test]
fn checksum_is_stable_and_sensitive() {
    let mut state = GameState::new();
    state.advance(vec![(Input { inp: 0b0001 }, InputStatus::Confirmed)]);

    let first = state.checksum();
    let second = state.checksum();
    assert_eq!(first, second);

    let mut other = state;
    other.frame += 1;
    assert_ne!(other.checksum(), state.checksum());

    let mut nudged = state;
    nudged.ball.pos_y += 1;
    assert_ne!(nudged.checksum(), state.checksum());
}

#[test]
fn serialized_snapshot_layout() {
    let state = GameState::new();
    let bytes = state.serialize();
    // Eleven little-endian 32-bit fields, the bounce flag, and the 64-bit cue
    // index.
    assert_eq!(bytes.len(), 53);
    assert_eq!(&bytes[0..4], &[0u8, 0, 0, 0][..]);
    assert_eq!(&bytes[28..32], &[0u8, 1, 0, 0][..]);
    assert_eq!(bytes[44], 0);
}

#[test]
fn save_and_load_round_trip() {
    let mut state = GameState::new();
    state.advance(vec![(Input { inp: 0b0010 }, InputStatus::Confirmed)]);
    state.advance(vec![]);

    let (copy, checksum) = state.save_game_state(state.frame);

    let mut restored = GameState::new();
    restored.load_game_state(&copy);

    assert_eq!(restored.frame, state.frame);
    assert_eq!(restored.checksum(), checksum);
    assert_eq!(restored.checksum(), state.checksum());
}

#[test]
fn resimulation_reproduces_checksum() {
    let inputs = [0b0001u8, 0b0000, 0b0110, 0b1000, 0b0001];

    let mut first_run = GameState::new();
    for &inp in &inputs {
        first_run.advance(vec![(Input { inp }, InputStatus::Confirmed)]);
    }

    let mut second_run = GameState::new();
    for &inp in &inputs {
        second_run.advance(vec![(Input { inp }, InputStatus::Confirmed)]);
    }

    assert_eq!(first_run.checksum(), second_run.checksum());
}

#[test]
fn ball_double_step_translates_by_velocity() {
    let mut ball = Ball::new();
    ball.pos_x = MIDDLE_POS_X;
    ball.pos_y = MIDDLE_POS_Y;
    ball.perform_movement();
    ball.perform_movement();
    assert_eq!(ball.pos_x, MIDDLE_POS_X + 2 * INITIAL_VELOCITY);
    assert_eq!(ball.pos_y, MIDDLE_POS_Y + 2 * INITIAL_VELOCITY);
    assert_eq!(ball.vel_x, INITIAL_VELOCITY);
    assert_eq!(ball.vel_y, INITIAL_VELOCITY);
    assert_eq!(ball.changed_direction, false);
}

#[test]
fn corner_bounce_flips_both_axes() {
    let mut ball = Ball::new();
    ball.pos_x = EDGE_RIGHT;
    ball.pos_y = good_game_rusty_pong::EDGE_TOP;
    ball.perform_movement();
    assert_eq!(ball.vel_x, -INITIAL_VELOCITY);
    assert_eq!(ball.vel_y, -INITIAL_VELOCITY);
    assert_eq!(ball.changed_direction, true);
}
