//! The progress bar of the track that plays.

use vstd::prelude::*;
use crate::text::push_char;

verus! {

/// Number of cells of the progress bar.
pub const BAR_CELLS: usize = 20;

/// A cell of the bar that the track has not reached, or has passed.
pub const BAR_LINE: char = '▬';

/// The cell that marks where the track is.
pub const BAR_BALL: char = '🔵';

/// The cell in which the ball stands: the position divided by a twentieth
/// of the duration (rounded down), as a `usize`.
pub open spec fn ball_cell(position: u128, duration: u128) -> usize {
    (position / (duration / 20)) as usize
}

/// The bar for a track at `position` of `duration` (both in milliseconds):
/// twenty cells, the ball in cell `ball_cell`, lines everywhere else.
pub open spec fn player_bar(position: u128, duration: u128) -> Seq<char> {
    Seq::new(20, |n: int| if n == ball_cell(position, duration) { BAR_BALL } else { BAR_LINE })
}

/// Builds the progress bar of a track at `position` of `duration`, both in
/// milliseconds. A twentieth of the duration is the width of a cell, so the
/// duration is at least 20 ms (the division by a zero width panics).
pub fn build_player(position: u128, duration: u128) -> (bar: String)
    requires
        duration >= 20,
    ensures
        bar@ == player_bar(position, duration),
{
    let part = duration / 20;
    let pos = (position / part) as usize;
    let line = BAR_LINE;
    let ball = BAR_BALL;
    let mut bar = String::new();

    for n in 0..BAR_CELLS
        invariant
            part == duration / 20,
            pos == ball_cell(position, duration),
            line == BAR_LINE,
            ball == BAR_BALL,
            bar@ == player_bar(position, duration).take(n as int),
    {
        if n != pos {
            push_char(&mut bar, line);
        } else {
            push_char(&mut bar, ball);
        }
        assert(bar@ =~= player_bar(position, duration).take(n + 1));
    }
    assert(bar@ =~= player_bar(position, duration));
    bar
}


/// The bar has twenty cells, and a cell holds the ball exactly when it is
/// the ball's cell: at most one ball, none once the quotient passes the bar.
pub proof fn law_bar_has_one_ball_at_most(position: u128, duration: u128)
    ensures
        player_bar(position, duration).len() == 20,
        forall|n: int|
            0 <= n < 20 ==> (#[trigger] player_bar(position, duration)[n] == BAR_BALL <==> n
                == ball_cell(position, duration)),
{
}

/// As a track advances, its ball does not move back (while the cell number
/// fits in a `usize`).
pub proof fn law_ball_moves_forward(earlier: u128, later: u128, duration: u128)
    requires
        duration >= 20,
        earlier <= later,
        later / (duration / 20) <= usize::MAX,
    ensures
        ball_cell(earlier, duration) <= ball_cell(later, duration),
{
    let part = (duration / 20) as int;
    vstd::arithmetic::div_mod::lemma_div_is_ordered(earlier as int, later as int, part);
}


/// The ball stands in the cell whose span of a twentieth of the duration
/// holds the position (while the cell number fits in a `usize`).
pub proof fn law_ball_cell_holds_position(position: u128, duration: u128)
    requires
        duration >= 20,
        position / (duration / 20) <= usize::MAX,
    ensures
        ball_cell(position, duration) * (duration / 20) <= position,
        position < (ball_cell(position, duration) + 1) * (duration / 20),
{
    let part = (duration / 20) as int;
    vstd::arithmetic::div_mod::lemma_fundamental_div_mod(position as int, part);
    let q = position as int / part;
    assert(ball_cell(position, duration) == q);
    assert(q * part <= position as int) by (nonlinear_arith)
        requires
            position as int == part * q + position as int % part,
            0 <= position as int % part,
    ;
    assert(position < (q + 1) * part) by (nonlinear_arith)
        requires
            position as int == part * q + position as int % part,
            position as int % part < part,
    ;
}

} // verus!
