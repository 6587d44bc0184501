//! The simulation state and its single deterministic per-frame transition,
//! together with the snapshot operations the rollback scheduler drives.
use vstd::prelude::*;

use vstd::bytes::{spec_u32_to_le_bytes, spec_u64_to_le_bytes, u32_to_le_bytes, u64_to_le_bytes};

use crate::ball::{ball_step, lemma_step_preserves_wf, spec_missed_paddle, wf_ball, Ball, BallView};
use crate::helpers::{fletcher16, spec_fletcher16};
use crate::input::{bit_asserted, left_velocity, right_velocity, Input, InputStatus};
use crate::paddle::{paddle_step, Paddle, PaddleView};
use crate::{
    EDGE_LEFT, EDGE_RIGHT, INITIAL_VELOCITY, INPUT_LEFT_PADDLE_DOWN, INPUT_LEFT_PADDLE_UP,
    INPUT_RIGHT_PADDLE_DOWN, INPUT_RIGHT_PADDLE_UP, MIDDLE_POS_X, MIDDLE_POS_Y, NULL_FRAME,
    PADDLE_BOTTOM_LIMIT, PADDLE_HEIGHT, PADDLE_STEP, PADDLE_TOP_LIMIT, SCORE_MAX_VALUE,
};

verus! {

/// The whole mutable simulation state: both paddles, the ball, the frame
/// counter, the checksum bookkeeping, and the index of the next audio cue.
/// It is the sole unit of save and restore during rollback.
#[derive(Clone, Copy)]
pub struct GameState {
    pub frame: i32,
    pub last_checksum: (i32, u64),
    pub periodic_checksum: (i32, u64),
    pub sound_played: usize,
    pub left_paddle: Paddle,
    pub right_paddle: Paddle,
    pub ball: Ball,
}

/// Mathematical model of the simulation state.
pub ghost struct GameStateView {
    pub frame: int,
    pub last_checksum: (int, int),
    pub periodic_checksum: (int, int),
    pub sound_played: int,
    pub left_paddle: PaddleView,
    pub right_paddle: PaddleView,
    pub ball: BallView,
}

impl View for GameState {
    type V = GameStateView;

    open spec fn view(&self) -> GameStateView {
        GameStateView {
            frame: self.frame as int,
            last_checksum: (self.last_checksum.0 as int, self.last_checksum.1 as int),
            periodic_checksum: (self.periodic_checksum.0 as int, self.periodic_checksum.1 as int),
            sound_played: self.sound_played as int,
            left_paddle: self.left_paddle@,
            right_paddle: self.right_paddle@,
            ball: self.ball@,
        }
    }
}

/// The state a match starts from: frame zero, both paddles at the bottom
/// limit with score zero, the ball at the center of the field with the
/// initial velocity on both axes.
pub open spec fn initial_state() -> GameStateView {
    GameStateView {
        frame: 0,
        last_checksum: (NULL_FRAME as int, 0),
        periodic_checksum: (NULL_FRAME as int, 0),
        sound_played: 0,
        left_paddle: PaddleView { score: 0, pos: PADDLE_BOTTOM_LIMIT as int, vel: 0 },
        right_paddle: PaddleView { score: 0, pos: PADDLE_BOTTOM_LIMIT as int, vel: 0 },
        ball: BallView {
            pos_x: MIDDLE_POS_X as int,
            pos_y: MIDDLE_POS_Y as int,
            vel_x: INITIAL_VELOCITY as int,
            vel_y: INITIAL_VELOCITY as int,
            changed_direction: false,
        },
    }
}

/// One frame of simulation: the frame counter rises by one, each paddle gets
/// the velocity the inputs resolve to and then moves, the ball moves, and the
/// cue index alternates when the ball bounced this frame.
pub open spec fn advance_step(s: GameStateView, inputs: Seq<(Input, InputStatus)>) -> GameStateView {
    let b = ball_step(s.ball);
    GameStateView {
        frame: s.frame + 1,
        sound_played: if b.changed_direction {
            if s.sound_played == 0 {
                1
            } else {
                0
            }
        } else {
            s.sound_played
        },
        left_paddle: paddle_step(PaddleView { vel: left_velocity(inputs), ..s.left_paddle }),
        right_paddle: paddle_step(PaddleView { vel: right_velocity(inputs), ..s.right_paddle }),
        ball: b,
        ..s
    }
}

/// Whether the ball has crossed the right boundary past a right paddle that
/// missed it, which scores a point for the left paddle.
pub open spec fn right_boundary_miss(s: GameStateView) -> bool {
    s.ball.pos_x > EDGE_RIGHT && spec_missed_paddle(s.ball.pos_y, s.right_paddle.pos)
}

/// Whether the ball has crossed the left boundary past a left paddle that
/// missed it, which scores a point for the right paddle.
pub open spec fn left_boundary_miss(s: GameStateView) -> bool {
    s.ball.pos_x < EDGE_LEFT && spec_missed_paddle(s.ball.pos_y, s.left_paddle.pos)
}

/// The state after the scoring rule runs: on a missed crossing the defending
/// side concedes a point and the ball returns to the center with its velocity
/// kept; otherwise nothing changes.
pub open spec fn score_step(s: GameStateView) -> GameStateView {
    if right_boundary_miss(s) {
        GameStateView {
            left_paddle: PaddleView { score: s.left_paddle.score + 1, ..s.left_paddle },
            ball: BallView { pos_x: MIDDLE_POS_X as int, pos_y: MIDDLE_POS_Y as int, ..s.ball },
            ..s
        }
    } else if left_boundary_miss(s) {
        GameStateView {
            right_paddle: PaddleView { score: s.right_paddle.score + 1, ..s.right_paddle },
            ball: BallView { pos_x: MIDDLE_POS_X as int, pos_y: MIDDLE_POS_Y as int, ..s.ball },
            ..s
        }
    } else {
        s
    }
}

/// Whether the scoring rule ends the match: the point just conceded brought
/// the scoring paddle to the winning score.
pub open spec fn score_step_over(s: GameStateView) -> bool {
    if right_boundary_miss(s) {
        s.left_paddle.score + 1 >= SCORE_MAX_VALUE
    } else if left_boundary_miss(s) {
        s.right_paddle.score + 1 >= SCORE_MAX_VALUE
    } else {
        false
    }
}

/// The deterministic byte encoding of a state: every field that resimulation
/// must reproduce, little-endian, in a fixed order. The two checksum
/// bookkeeping pairs are left out so that the checksum never hashes itself.
pub open spec fn spec_serialize(s: GameState) -> Seq<u8> {
    spec_u32_to_le_bytes(s.frame as u32) + spec_u32_to_le_bytes(s.left_paddle.score as u32)
        + spec_u32_to_le_bytes(s.left_paddle.pos as u32) + spec_u32_to_le_bytes(
        s.left_paddle.vel as u32,
    ) + spec_u32_to_le_bytes(s.right_paddle.score as u32) + spec_u32_to_le_bytes(
        s.right_paddle.pos as u32,
    ) + spec_u32_to_le_bytes(s.right_paddle.vel as u32) + spec_u32_to_le_bytes(
        s.ball.pos_x as u32,
    ) + spec_u32_to_le_bytes(s.ball.pos_y as u32) + spec_u32_to_le_bytes(s.ball.vel_x as u32)
        + spec_u32_to_le_bytes(s.ball.vel_y as u32) + seq![
        (if s.ball.changed_direction {
            1u8
        } else {
            0u8
        }),
    ] + spec_u64_to_le_bytes(s.sound_played as u64)
}

impl GameState {
    /// Return a new game state at frame 0, with both paddles at the bottom
    /// limit and the ball at the center of the field.
    pub fn new() -> (r: GameState)
        ensures
            r@ == initial_state(),
    {
        let left_paddle = Paddle::new();
        let right_paddle = Paddle::new();
        let mut ball = Ball::new();
        ball.reset_position();

        GameState {
            frame: 0,
            last_checksum: (NULL_FRAME, 0),
            periodic_checksum: (NULL_FRAME, 0),
            sound_played: 0,
            left_paddle,
            right_paddle,
            ball,
        }
    }

    /// Advance the game state by a single frame, as [`advance_step`] says:
    /// resolve both paddle velocities from the received inputs, move the
    /// paddles and the ball, and—when the ball bounced this frame—return the
    /// audio cue to play while alternating the cue index.
    pub fn advance(&mut self, inputs_vector: Vec<(Input, InputStatus)>) -> (cue: Option<usize>)
        requires
            old(self)@.frame < i32::MAX,
            i32::MIN <= old(self)@.ball.pos_x + old(self)@.ball.vel_x <= i32::MAX,
            i32::MIN <= old(self)@.ball.pos_y + old(self)@.ball.vel_y <= i32::MAX,
            old(self).ball.vel_x != i32::MIN,
            old(self).ball.vel_y != i32::MIN,
        ensures
            final(self)@ == advance_step(old(self)@, inputs_vector@),
            cue == (if ball_step(old(self)@.ball).changed_direction {
                Some(old(self)@.sound_played as usize)
            } else {
                None::<usize>
            }),
    {
        self.frame = self.frame + 1;

        let mut left_up = false;
        let mut left_down = false;
        let mut right_up = false;
        let mut right_down = false;

        let n = inputs_vector.len();
        let mut i: usize = 0;
        while i < n
            invariant
                n == inputs_vector@.len(),
                i <= n,
                left_up == bit_asserted(inputs_vector@.take(i as int), INPUT_LEFT_PADDLE_UP),
                left_down == bit_asserted(inputs_vector@.take(i as int), INPUT_LEFT_PADDLE_DOWN),
                right_up == bit_asserted(inputs_vector@.take(i as int), INPUT_RIGHT_PADDLE_UP),
                right_down == bit_asserted(inputs_vector@.take(i as int), INPUT_RIGHT_PADDLE_DOWN),
            decreases n - i,
        {
            proof {
                assert(inputs_vector@.take(i + 1).drop_last() =~= inputs_vector@.take(i as int));
                assert(inputs_vector@.take(i + 1).last() == inputs_vector@[i as int]);
            }
            let pair = inputs_vector[i];
            match pair.1 {
                InputStatus::Disconnected => {},
                InputStatus::Confirmed | InputStatus::Predicted => {
                    if pair.0.inp & INPUT_LEFT_PADDLE_UP != 0 {
                        left_up = true;
                    }
                    if pair.0.inp & INPUT_LEFT_PADDLE_DOWN != 0 {
                        left_down = true;
                    }
                    if pair.0.inp & INPUT_RIGHT_PADDLE_UP != 0 {
                        right_up = true;
                    }
                    if pair.0.inp & INPUT_RIGHT_PADDLE_DOWN != 0 {
                        right_down = true;
                    }
                },
            }
            i = i + 1;
        }
        proof {
            assert(inputs_vector@.take(n as int) =~= inputs_vector@);
        }

        self.left_paddle.vel = if left_up && !left_down {
            -PADDLE_STEP
        } else if left_down && !left_up {
            PADDLE_STEP
        } else {
            0
        };
        self.right_paddle.vel = if right_up && !right_down {
            -PADDLE_STEP
        } else if right_down && !right_up {
            PADDLE_STEP
        } else {
            0
        };

        self.left_paddle.perform_movement();
        self.right_paddle.perform_movement();
        self.ball.perform_movement();

        if self.ball.changed_direction {
            let played = self.sound_played;
            self.sound_played = if played == 0 {
                1
            } else {
                0
            };
            Some(played)
        } else {
            None
        }
    }

    /// Serialize the state to its snapshot byte encoding, [`spec_serialize`].
    pub fn serialize(&self) -> (r: Vec<u8>)
        ensures
            r@ == spec_serialize(*self),
    {
        let mut out = u32_to_le_bytes(self.frame as u32);
        let mut c = u32_to_le_bytes(self.left_paddle.score as u32);
        out.append(&mut c);
        let mut c = u32_to_le_bytes(self.left_paddle.pos as u32);
        out.append(&mut c);
        let mut c = u32_to_le_bytes(self.left_paddle.vel as u32);
        out.append(&mut c);
        let mut c = u32_to_le_bytes(self.right_paddle.score as u32);
        out.append(&mut c);
        let mut c = u32_to_le_bytes(self.right_paddle.pos as u32);
        out.append(&mut c);
        let mut c = u32_to_le_bytes(self.right_paddle.vel as u32);
        out.append(&mut c);
        let mut c = u32_to_le_bytes(self.ball.pos_x as u32);
        out.append(&mut c);
        let mut c = u32_to_le_bytes(self.ball.pos_y as u32);
        out.append(&mut c);
        let mut c = u32_to_le_bytes(self.ball.vel_x as u32);
        out.append(&mut c);
        let mut c = u32_to_le_bytes(self.ball.vel_y as u32);
        out.append(&mut c);
        let mut flag: Vec<u8> = Vec::new();
        flag.push(if self.ball.changed_direction {
            1
        } else {
            0
        });
        proof {
            assert(flag@ =~= seq![
                (if self.ball.changed_direction {
                    1u8
                } else {
                    0u8
                }),
            ]);
        }
        out.append(&mut flag);
        let mut c = u64_to_le_bytes(self.sound_played as u64);
        out.append(&mut c);
        out
    }

    /// The Fletcher-16 checksum of the snapshot byte encoding, used to flag a
    /// likely desynchronization between peers.
    pub fn checksum(&self) -> (r: u16)
        ensures
            r == spec_fletcher16(spec_serialize(*self)),
    {
        let bytes = self.serialize();
        fletcher16(bytes.as_slice())
    }

    /// Hand out a copy of the state together with its checksum, for the
    /// scheduler to keep as a save point. The scheduler must only save the
    /// frame the simulation is at, so `frame` is required to match.
    pub fn save_game_state(&self, frame: i32) -> (r: (GameState, u16))
        requires
            frame == self@.frame,
        ensures
            r.0 == *self,
            r.1 == spec_fletcher16(spec_serialize(*self)),
    {
        (*self, self.checksum())
    }

    /// Replace the whole state with a saved copy; this is the rollback
    /// operation.
    pub fn load_game_state(&mut self, loaded: &GameState)
        ensures
            *final(self) == *loaded,
    {
        *self = *loaded;
    }

    /// Run the scoring rule, as [`score_step`] says: when the ball has
    /// crossed a side boundary and the defending paddle missed it, the other
    /// paddle scores and the ball returns to the center. Returns true exactly
    /// when the point ends the match.
    pub fn resolve_score(&mut self) -> (match_over: bool)
        requires
            old(self)@.ball.pos_x > EDGE_RIGHT ==> old(self)@.right_paddle.pos + PADDLE_HEIGHT
                <= i32::MAX,
            old(self)@.ball.pos_x < EDGE_LEFT ==> old(self)@.left_paddle.pos + PADDLE_HEIGHT
                <= i32::MAX,
            right_boundary_miss(old(self)@) ==> old(self)@.left_paddle.score < i32::MAX,
            left_boundary_miss(old(self)@) ==> old(self)@.right_paddle.score < i32::MAX,
        ensures
            final(self)@ == score_step(old(self)@),
            match_over == score_step_over(old(self)@),
    {
        if self.ball.pos_x > EDGE_RIGHT && self.ball.missed_paddle(self.right_paddle.pos) {
            let match_over = self.left_paddle.score_point();
            self.ball.reset_position();
            match_over
        } else if self.ball.pos_x < EDGE_LEFT && self.ball.missed_paddle(self.left_paddle.pos) {
            let match_over = self.right_paddle.score_point();
            self.ball.reset_position();
            match_over
        } else {
            false
        }
    }
}

/// Law: the snapshot checksum is a function of the state alone, so computing
/// it twice on an unmodified state yields the same value.
pub proof fn lemma_checksum_stable(a: GameState, b: GameState)
    requires
        a == b,
    ensures
        spec_fletcher16(spec_serialize(a)) == spec_fletcher16(spec_serialize(b)),
{
}

/// Law: from the initial state, one frame with no input sources leaves both
/// paddles where they were with velocity zero and moves the ball one velocity
/// step away from the center.
pub proof fn lemma_first_frame(inputs: Seq<(Input, InputStatus)>)
    requires
        inputs.len() == 0,
    ensures
        advance_step(initial_state(), inputs).frame == 1,
        advance_step(initial_state(), inputs).left_paddle.vel == 0,
        advance_step(initial_state(), inputs).right_paddle.vel == 0,
        advance_step(initial_state(), inputs).left_paddle.pos == PADDLE_BOTTOM_LIMIT,
        advance_step(initial_state(), inputs).right_paddle.pos == PADDLE_BOTTOM_LIMIT,
        advance_step(initial_state(), inputs).ball.pos_x == MIDDLE_POS_X + INITIAL_VELOCITY,
        advance_step(initial_state(), inputs).ball.pos_y == MIDDLE_POS_Y + INITIAL_VELOCITY,
        advance_step(initial_state(), inputs).ball.vel_x == INITIAL_VELOCITY,
        advance_step(initial_state(), inputs).ball.vel_y == INITIAL_VELOCITY,
{
}

/// Law: the match starts with a well-formed ball, and every frame keeps it
/// well formed, so the ball's velocity magnitude is invariant across a whole
/// match and its position never strays further than one step past an edge.
pub proof fn lemma_advance_preserves_wf_ball(s: GameStateView, inputs: Seq<(Input, InputStatus)>)
    requires
        wf_ball(s.ball),
    ensures
        wf_ball(initial_state().ball),
        wf_ball(advance_step(s, inputs).ball),
{
    lemma_step_preserves_wf(s.ball);
}

/// The state after a run of frames, each with its own input list, applied in
/// order.
pub open spec fn advance_run(s: GameStateView, frames: Seq<Seq<(Input, InputStatus)>>) -> GameStateView
    decreases frames.len(),
{
    if frames.len() == 0 {
        s
    } else {
        advance_step(advance_run(s, frames.drop_last()), frames.last())
    }
}

/// Law: a run of frames whose inputs all resolve the left paddle to "up only"
/// moves it up by one step per frame, and—provided the run stops at or above
/// the bottom limit—the position never leaves the limits. (A run that would
/// reach the bottom limit is excluded: the movement rule permits one more
/// downward step from the limit itself.)
pub proof fn lemma_left_up_run(s: GameStateView, frames: Seq<Seq<(Input, InputStatus)>>)
    requires
        forall|i: int|
            0 <= i < frames.len() ==> left_velocity(#[trigger] frames[i]) == -(PADDLE_STEP as int),
        PADDLE_BOTTOM_LIMIT <= s.left_paddle.pos - PADDLE_STEP * frames.len(),
        s.left_paddle.pos <= PADDLE_TOP_LIMIT,
    ensures
        advance_run(s, frames).left_paddle.pos == s.left_paddle.pos - PADDLE_STEP * frames.len(),
        advance_run(s, frames).left_paddle.pos >= PADDLE_BOTTOM_LIMIT,
        advance_run(s, frames).left_paddle.score == s.left_paddle.score,
    decreases frames.len(),
{
    if frames.len() > 0 {
        lemma_left_up_run(s, frames.drop_last());
    }
}

} // verus!
