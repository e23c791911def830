//! Behavioural laws of the typing session, each proved once and for all
//! over the transition function [`step`].

use vstd::prelude::*;

use crate::chars;
use crate::game::{
    step, reset_view, health_points, wrong_text, GameView, StepResult,
};

verus! {

/// Every submitted character keeps a well-formed session well-formed, and
/// never touches the script, its index map, or its line lengths.
pub proof fn lemma_step_preserves_inv(v: GameView, c: char)
    requires
        v.inv(),
    ensures
        step(v, c).0.inv(),
        step(v, c).0.script == v.script,
        step(v, c).0.metas == v.metas,
        step(v, c).0.line_lens == v.line_lens,
{
}

/// Health accounting, per outcome: a correct character costs exactly one
/// per-character slice of the 100-point scale (100 of the numerator over
/// the script length); victory means health is exactly 0; a wrong or
/// ignored character costs nothing; a restart returns health to full
/// (a numerator of 100 times the script length).
pub proof fn lemma_health_accounting(v: GameView, c: char)
    requires
        v.inv(),
    ensures
        step(v, c).1 == StepResult::Correct ==> health_points(step(v, c).0) == health_points(v)
            - 100,
        step(v, c).1 == StepResult::Victory ==> health_points(step(v, c).0) == 0,
        step(v, c).1 == StepResult::Ignored ==> step(v, c).0 == v,
        (step(v, c).1 is Wrong) ==> health_points(step(v, c).0) == health_points(v),
        step(v, c).1 == StepResult::Restarted ==> health_points(step(v, c).0) == 100 * v.total(),
        health_points(v) >= 0,
        v.cursor == v.total() ==> health_points(v) == 0,
        v.cursor == 0 ==> health_points(v) == 100 * v.total(),
{
}

/// A wrong character never moves the session: whenever the outcome is
/// `Wrong`, only the status text changes; and a mismatching character that
/// no filter catches is reported as exactly `Wrong` with that character.
pub proof fn lemma_wrong_keeps_state(v: GameView, c: char)
    requires
        v.inv(),
    ensures
        (step(v, c).1 is Wrong) ==> step(v, c).0 == (GameView { message: wrong_text(), ..v }),
        (step(v, c).1 is Wrong) ==> step(v, c).1 == StepResult::Wrong(c),
        (v.cursor < v.total() && c != '\n' && c != '\r' && !chars::is_composing(c) && (c == ' '
            || !chars::is_white_space(c) || v.script[v.cursor] == ' ') && c != v.script[v.cursor])
            ==> step(v, c).1 == StepResult::Wrong(c),
{
}

/// While a restart is awaited, anything but a space is ignored and changes
/// nothing at all.
pub proof fn lemma_awaiting_ignores(v: GameView, c: char)
    requires
        v.awaiting_restart,
        c != ' ',
    ensures
        step(v, c) == (v, StepResult::Ignored),
{
}

/// While a restart is awaited, a space restarts the round: cursor 0, full
/// health, restart flag cleared, script kept.
pub proof fn lemma_space_restarts(v: GameView)
    requires
        v.awaiting_restart,
    ensures
        step(v, ' ') == (reset_view(v), StepResult::Restarted),
        reset_view(v).cursor == 0,
        !reset_view(v).awaiting_restart,
        reset_view(v).script == v.script,
        health_points(reset_view(v)) == 100 * v.total(),
{
}

/// Outside the awaiting-restart state, a line feed or carriage return is
/// ignored and changes nothing.
pub proof fn lemma_newline_ignored(v: GameView, c: char)
    requires
        !v.awaiting_restart,
        c == '\n' || c == '\r',
    ensures
        step(v, c) == (v, StepResult::Ignored),
{
}

/// A composition-intermediate code point is ignored and changes nothing,
/// at every cursor position a well-formed session reaches (while awaiting a
/// restart it is not a space, and otherwise it reaches the composition
/// filter before any comparison).
pub proof fn lemma_composing_ignored(v: GameView, c: char)
    requires
        v.inv(),
        chars::is_composing(c),
        v.awaiting_restart || v.cursor < v.total(),
    ensures
        step(v, c) == (v, StepResult::Ignored),
{
}

/// Whitespace other than the space character, submitted when the expected
/// character is not a space, is ignored and changes nothing.
pub proof fn lemma_stray_whitespace_ignored(v: GameView, c: char)
    requires
        v.inv(),
        !v.awaiting_restart,
        v.cursor < v.total(),
        chars::is_white_space(c),
        c != ' ',
        v.script[v.cursor] != ' ',
    ensures
        step(v, c) == (v, StepResult::Ignored),
{
}

/// A space submitted when the expected character is a space advances the
/// cursor normally.
pub proof fn lemma_space_matches_space(v: GameView)
    requires
        v.inv(),
        !v.awaiting_restart,
        v.cursor < v.total(),
        v.script[v.cursor] == ' ',
    ensures
        step(v, ' ').0.cursor == v.cursor + 1,
        step(v, ' ').1 == if v.cursor + 1 == v.total() {
            StepResult::Victory
        } else {
            StepResult::Correct
        },
{
}

/// The session after feeding the given characters one by one.
pub open spec fn run_steps(v: GameView, inputs: Seq<char>) -> GameView
    decreases inputs.len(),
{
    if inputs.len() == 0 {
        v
    } else {
        run_steps(step(v, inputs.first()).0, inputs.drop_first())
    }
}

/// The outcome the last of the given characters is reported with (the
/// inputs are meant to be non-empty; an empty run reports `Ignored`).
pub open spec fn last_outcome(v: GameView, inputs: Seq<char>) -> StepResult
    decreases inputs.len(),
{
    if inputs.len() <= 1 {
        step(v, inputs.first()).1
    } else {
        last_outcome(step(v, inputs.first()).0, inputs.drop_first())
    }
}

/// Typing the rest of the script verbatim wins the round: feeding exactly
/// the characters from the cursor to the end, in order, drives the cursor
/// to the script length, sets the restart flag, leaves health at exactly 0,
/// and reports the final character as `Victory`. The characters must be
/// ones the session compares rather than filters (see
/// [`chars::is_typeable`]): a script containing a line feed, for instance,
/// can never be completed, since a line feed is always ignored.
pub proof fn lemma_typing_script_wins(v: GameView, inputs: Seq<char>)
    requires
        v.inv(),
        inputs.len() > 0,
        v.cursor + inputs.len() == v.total(),
        inputs == v.script.subrange(v.cursor, v.total()),
        forall|i: int| v.cursor <= i < v.total() ==> chars::is_typeable(#[trigger] v.script[i]),
    ensures
        run_steps(v, inputs).inv(),
        run_steps(v, inputs).script == v.script,
        run_steps(v, inputs).cursor == v.total(),
        run_steps(v, inputs).awaiting_restart,
        health_points(run_steps(v, inputs)) == 0,
        last_outcome(v, inputs) == StepResult::Victory,
    decreases inputs.len(),
{
    let c = inputs.first();
    assert(c == v.script[v.cursor]);
    assert(chars::is_typeable(c));
    let v1 = step(v, c).0;
    if inputs.len() == 1 {
        assert(step(v, c).1 == StepResult::Victory);
        assert(run_steps(v1, inputs.drop_first()) == v1);
    } else {
        assert(step(v, c).1 == StepResult::Correct);
        assert(v1.inv());
        assert(inputs.drop_first() =~= v1.script.subrange(v1.cursor, v1.total()));
        lemma_typing_script_wins(v1, inputs.drop_first());
    }
}

} // verus!
