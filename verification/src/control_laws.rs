//! What holds of a button's state whatever happens to it.

use vstd::prelude::*;
use crate::color::Palette;
use crate::control::{ControlInput, ControlState, Direction};
use crate::units::{RATE, UNIT};

verus! {

/// Whatever pointer events and ticks arrive, in whatever order, the progress
/// stays a fraction between zero and one, and the button keeps instructing
/// the two nodes it was built with.
pub proof fn lemma_progress_stays_clamped(s: ControlState, inputs: Seq<ControlInput>)
    requires
        s.wf(),
    ensures
        s.run(inputs).wf(),
        s.run(inputs).image == s.image,
        s.run(inputs).text == s.text,
    decreases inputs.len(),
{
    if inputs.len() > 0 {
        lemma_progress_stays_clamped(s, inputs.drop_last());
    }
}

/// A tick that finds the progress at zero while moving backward, or at one
/// while moving forward, changes nothing and hands out no instruction. The
/// same holds of any tick of an idle button.
pub proof fn lemma_saturated_tick_is_silent(s: ControlState, elapsed_micros: nat, palette: Palette)
    requires
        s.wf(),
        (s.direction == Direction::Backward && s.progress == 0) || (s.direction
            == Direction::Forward && s.progress == UNIT) || s.direction == Direction::Idle,
    ensures
        s.advanced(elapsed_micros) == s,
        s.output(elapsed_micros, palette).repaint is None,
{
    assert(elapsed_micros * (RATE as int) >= 0) by (nonlinear_arith)
        requires
            elapsed_micros >= 0,
            RATE == 10,
    ;
}

/// A tick hands out instructions exactly when it moves the progress, and
/// then they describe the look at the new progress.
pub proof fn lemma_repaint_iff_moved(s: ControlState, elapsed_micros: nat, palette: Palette)
    ensures
        s.output(elapsed_micros, palette).repaint is Some <==> s.advanced(elapsed_micros).progress
            != s.progress,
        s.output(elapsed_micros, palette).repaint matches Some(r) ==> r == s.advanced(
            elapsed_micros,
        ).repaint(palette),
        s.output(elapsed_micros, palette).cursor is Some <==> s.direction == Direction::Forward,
{
}

/// Held forward and ticked `n` times by the same interval, the progress is
/// the start plus `n` times the gain of one tick, capped at one.
pub proof fn lemma_forward_ticks(s: ControlState, elapsed_micros: nat, n: nat)
    requires
        s.wf(),
        s.direction == Direction::Forward,
    ensures
        s.ticked(elapsed_micros, n).direction == Direction::Forward,
        s.ticked(elapsed_micros, n).image == s.image,
        s.ticked(elapsed_micros, n).text == s.text,
        s.ticked(elapsed_micros, n).progress == if s.progress + n * elapsed_micros * RATE
            <= UNIT {
            s.progress + n * elapsed_micros * RATE
        } else {
            UNIT as int
        },
    decreases n,
{
    let gain: int = elapsed_micros * (RATE as int);
    assert(gain >= 0) by (nonlinear_arith)
        requires
            gain == elapsed_micros * (RATE as int),
            elapsed_micros >= 0,
            RATE == 10,
    ;
    if n > 0 {
        lemma_forward_ticks(s, elapsed_micros, (n - 1) as nat);
        assert(n * elapsed_micros * RATE == (n - 1) * elapsed_micros * RATE + gain
            && (n - 1) * elapsed_micros * RATE >= 0) by (nonlinear_arith)
            requires
                gain == elapsed_micros * (RATE as int),
                n >= 1,
                elapsed_micros >= 0,
                RATE == 10,
        ;
    } else {
        assert(n * elapsed_micros * RATE == 0) by (nonlinear_arith)
            requires
                n == 0,
        ;
    }
}

/// Held forward and ticked by the same positive interval, the progress grows
/// with every tick while it is below one, is one as soon as the ticks add
/// up to the distance left, and stays one from there on.
pub proof fn lemma_forward_converges(s: ControlState, elapsed_micros: nat, n: nat)
    requires
        s.wf(),
        s.direction == Direction::Forward,
        elapsed_micros > 0,
    ensures
        s.ticked(elapsed_micros, n).progress < UNIT ==> s.ticked(elapsed_micros, n).progress
            < s.ticked(elapsed_micros, n + 1).progress,
        s.ticked(elapsed_micros, n).progress == UNIT ==> s.ticked(elapsed_micros, n + 1).progress
            == UNIT,
        s.ticked(elapsed_micros, n + 1).progress <= UNIT,
        s.progress + n * elapsed_micros * RATE >= UNIT ==> s.ticked(elapsed_micros, n).progress
            == UNIT,
        n * 10 >= UNIT - s.progress ==> s.ticked(elapsed_micros, n).progress == UNIT,
{
    lemma_forward_ticks(s, elapsed_micros, n);
    lemma_forward_ticks(s, elapsed_micros, n + 1);
    assert((n + 1) * elapsed_micros * RATE == n * elapsed_micros * RATE + elapsed_micros * RATE
        && elapsed_micros * RATE >= 10 && n * elapsed_micros * RATE >= n * 10) by (nonlinear_arith)
        requires
            elapsed_micros >= 1,
            n >= 0,
            RATE == 10,
    ;
}

/// Entering sets the direction and does not add to it: a second enter, with
/// or without a leave before it, leaves the state that one enter gives, and
/// so the ticks that follow move the progress at the same speed.
pub proof fn lemma_enter_overrides(s: ControlState, elapsed_micros: nat)
    ensures
        s.entered().direction == Direction::Forward,
        s.entered().progress == s.progress,
        s.entered().entered() == s.entered(),
        s.left().entered() == s.entered(),
        s.entered().entered().advanced(elapsed_micros) == s.entered().advanced(elapsed_micros),
{
}

/// Leaving sets the direction to backward whatever it was.
pub proof fn lemma_leave_overrides(s: ControlState)
    ensures
        s.left().direction == Direction::Backward,
        s.left().progress == s.progress,
        s.left().left() == s.left(),
        s.entered().left() == s.left(),
{
}

} // verus!
