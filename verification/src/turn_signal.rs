//! The turn signal of the buttons program: while button A is held the left
//! arrow blinks, else while button B is held the right arrow blinks, else
//! the centre dot shows.

use vstd::prelude::*;
use crate::roulette::Image;

verus! {

/// The left arrow.
pub const LEFT_TURN: Image = [
    [0, 0, 1, 0, 0],
    [0, 1, 0, 0, 0],
    [1, 1, 1, 1, 1],
    [0, 1, 0, 0, 0],
    [0, 0, 1, 0, 0],
];

/// The right arrow.
pub const RIGHT_TURN: Image = [
    [0, 0, 1, 0, 0],
    [0, 0, 0, 1, 0],
    [1, 1, 1, 1, 1],
    [0, 0, 0, 1, 0],
    [0, 0, 1, 0, 0],
];

/// The centre dot shown while no button is held.
pub const DEFAULT: Image = [
    [0, 0, 0, 0, 0],
    [0, 0, 0, 0, 0],
    [0, 0, 1, 0, 0],
    [0, 0, 0, 0, 0],
    [0, 0, 0, 0, 0],
];

/// The right arrow is the left arrow mirrored left to right.
pub proof fn lemma_arrows_mirrored(r: int, c: int)
    requires
        0 <= r < 5,
        0 <= c < 5,
    ensures
        RIGHT_TURN[r][c] == LEFT_TURN[r][4 - c],
{
}

/// One thing the display loop does.
#[derive(Clone, Copy, Debug, PartialEq, Eq)]
pub enum DisplayStep {
    /// Show the image for this many milliseconds.
    Show(Image, u32),
    /// Switch every LED off.
    Clear,
    /// Wait this many milliseconds.
    Delay(u32),
}

/// How long an arrow or the dot is shown, and how long each pause of a
/// blink lasts, in milliseconds.
pub const BLINK_MS: u32 = 500;

/// The pause that ends every round of the loop, in milliseconds.
pub const POLL_MS: u32 = 10;

/// The steps of one blink of `image`: show it, wait, clear, wait, then the
/// pause that ends the round.
pub open spec fn blink(image: Image) -> Seq<DisplayStep> {
    seq![
        DisplayStep::Show(image, BLINK_MS),
        DisplayStep::Delay(BLINK_MS),
        DisplayStep::Clear,
        DisplayStep::Delay(BLINK_MS),
        DisplayStep::Delay(POLL_MS),
    ]
}

/// The steps of one round of the loop when button A is held (`a_pressed`)
/// and when button B is held (`b_pressed`): button A wins over button B.
pub open spec fn round(a_pressed: bool, b_pressed: bool) -> Seq<DisplayStep> {
    if a_pressed {
        blink(LEFT_TURN)
    } else if b_pressed {
        blink(RIGHT_TURN)
    } else {
        seq![DisplayStep::Show(DEFAULT, BLINK_MS), DisplayStep::Delay(POLL_MS)]
    }
}

/// While button A is held, button B does not matter.
pub proof fn lemma_button_a_wins(b_pressed: bool)
    ensures
        round(true, b_pressed) == round(true, !b_pressed),
{
}

/// Every round ends with the short pause, and a round shows the left arrow,
/// the right arrow or the dot, first of all.
pub proof fn lemma_round_shape(a_pressed: bool, b_pressed: bool)
    ensures
        round(a_pressed, b_pressed).last() == DisplayStep::Delay(POLL_MS),
        round(a_pressed, b_pressed)[0] == DisplayStep::Show(
            if a_pressed {
                LEFT_TURN
            } else if b_pressed {
                RIGHT_TURN
            } else {
                DEFAULT
            },
            BLINK_MS,
        ),
{
}

/// The steps of one round of the display loop, given which buttons are
/// held (a button is held while its pin reads low).
pub fn signal_round(a_pressed: bool, b_pressed: bool) -> (steps: Vec<DisplayStep>)
    ensures
        steps@ == round(a_pressed, b_pressed),
{
    let mut steps: Vec<DisplayStep> = Vec::new();
    if a_pressed || b_pressed {
        let arrow = if a_pressed {
            LEFT_TURN
        } else {
            RIGHT_TURN
        };
        steps.push(DisplayStep::Show(arrow, BLINK_MS));
        steps.push(DisplayStep::Delay(BLINK_MS));
        steps.push(DisplayStep::Clear);
        steps.push(DisplayStep::Delay(BLINK_MS));
    } else {
        steps.push(DisplayStep::Show(DEFAULT, BLINK_MS));
    }
    steps.push(DisplayStep::Delay(POLL_MS));
    steps
}

} // verus!
