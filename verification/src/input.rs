//! The input model: a per-player bitmask, the status a source arrives with,
//! and the rule that multiplexes any number of sources into one velocity per
//! paddle.
use vstd::prelude::*;

use crate::{
    INPUT_LEFT_PADDLE_DOWN, INPUT_LEFT_PADDLE_UP, INPUT_RIGHT_PADDLE_DOWN, INPUT_RIGHT_PADDLE_UP,
    PADDLE_STEP,
};

verus! {

/// One player's control intent for one frame, as a fixed-width bitmask; the
/// four low bits are the paddle directions, the rest are reserved.
#[derive(Clone, Copy, PartialEq, Eq, Structural, Debug)]
pub struct Input {
    pub inp: u8,
}

/// How an input source arrived: confirmed from the peer, predicted by the
/// scheduler, or from a disconnected player. A disconnected source
/// contributes no bits, so a disconnect deterministically reads as "no keys
/// held" rather than holding a stale direction.
#[derive(Clone, Copy, PartialEq, Eq, Structural, Debug)]
pub enum InputStatus {
    Confirmed,
    Predicted,
    Disconnected,
}

/// Whether one source asserts the bits of `mask`: it must not be disconnected
/// and its payload must have a bit of `mask` set.
pub open spec fn contributes(source: (Input, InputStatus), mask: u8) -> bool {
    !(source.1 is Disconnected) && source.0.inp & mask != 0
}

/// Whether any source of the list asserts the bits of `mask`.
pub open spec fn bit_asserted(inputs: Seq<(Input, InputStatus)>, mask: u8) -> bool
    decreases inputs.len(),
{
    if inputs.len() == 0 {
        false
    } else {
        bit_asserted(inputs.drop_last(), mask) || contributes(inputs.last(), mask)
    }
}

/// The velocity a paddle gets from its up and down bits: up only moves toward
/// the bottom of the coordinate range, down only moves toward the top, and
/// both or neither yield no movement.
pub open spec fn resolved_velocity(up: bool, down: bool) -> int {
    if up && !down {
        -(PADDLE_STEP as int)
    } else if down && !up {
        PADDLE_STEP as int
    } else {
        0
    }
}

/// The left paddle's velocity for one frame, from all sources together.
pub open spec fn left_velocity(inputs: Seq<(Input, InputStatus)>) -> int {
    resolved_velocity(
        bit_asserted(inputs, INPUT_LEFT_PADDLE_UP),
        bit_asserted(inputs, INPUT_LEFT_PADDLE_DOWN),
    )
}

/// The right paddle's velocity for one frame, from all sources together.
pub open spec fn right_velocity(inputs: Seq<(Input, InputStatus)>) -> int {
    resolved_velocity(
        bit_asserted(inputs, INPUT_RIGHT_PADDLE_UP),
        bit_asserted(inputs, INPUT_RIGHT_PADDLE_DOWN),
    )
}

/// Whether every source of the list is disconnected.
pub open spec fn all_disconnected(inputs: Seq<(Input, InputStatus)>) -> bool {
    forall|i: int| 0 <= i < inputs.len() ==> inputs[i].1 is Disconnected
}

proof fn lemma_all_disconnected_no_bits(inputs: Seq<(Input, InputStatus)>, mask: u8)
    requires
        all_disconnected(inputs),
    ensures
        !bit_asserted(inputs, mask),
    decreases inputs.len(),
{
    if inputs.len() > 0 {
        assert(inputs.last().1 is Disconnected);
        assert forall|i: int| 0 <= i < inputs.drop_last().len() implies inputs.drop_last()[i].1
            is Disconnected by {
            assert(inputs.drop_last()[i] == inputs[i]);
        }
        lemma_all_disconnected_no_bits(inputs.drop_last(), mask);
    }
}

/// Law: when every source is disconnected, both paddles resolve to velocity
/// zero, whatever bit patterns the ignored payloads carry.
pub proof fn lemma_disconnect_neutrality(inputs: Seq<(Input, InputStatus)>)
    requires
        all_disconnected(inputs),
    ensures
        left_velocity(inputs) == 0,
        right_velocity(inputs) == 0,
{
    lemma_all_disconnected_no_bits(inputs, INPUT_LEFT_PADDLE_UP);
    lemma_all_disconnected_no_bits(inputs, INPUT_LEFT_PADDLE_DOWN);
    lemma_all_disconnected_no_bits(inputs, INPUT_RIGHT_PADDLE_UP);
    lemma_all_disconnected_no_bits(inputs, INPUT_RIGHT_PADDLE_DOWN);
}

/// The bitmask that a frame's local key state encodes to, in the order the
/// keys are examined.
pub open spec fn spec_encode_local_input(
    right_up: bool,
    right_down: bool,
    left_up: bool,
    left_down: bool,
) -> u8 {
    (((if right_up {
        INPUT_RIGHT_PADDLE_UP
    } else {
        0u8
    }) | (if right_down {
        INPUT_RIGHT_PADDLE_DOWN
    } else {
        0u8
    })) | (if left_up {
        INPUT_LEFT_PADDLE_UP
    } else {
        0u8
    })) | (if left_down {
        INPUT_LEFT_PADDLE_DOWN
    } else {
        0u8
    })
}

/// Build the local [`Input`] for one frame from the state of the four control
/// keys: `right_up` and `right_down` steer the right paddle, `left_up` and
/// `left_down` the left one.
pub fn encode_local_input(right_up: bool, right_down: bool, left_up: bool, left_down: bool) -> (r:
    Input)
    ensures
        r.inp == spec_encode_local_input(right_up, right_down, left_up, left_down),
{
    let from_right_up: u8 = if right_up { INPUT_RIGHT_PADDLE_UP } else { 0 };
    let from_right_down: u8 = if right_down { INPUT_RIGHT_PADDLE_DOWN } else { 0 };
    let from_left_up: u8 = if left_up { INPUT_LEFT_PADDLE_UP } else { 0 };
    let from_left_down: u8 = if left_down { INPUT_LEFT_PADDLE_DOWN } else { 0 };
    Input { inp: ((from_right_up | from_right_down) | from_left_up) | from_left_down }
}

} // verus!
