//! What holds of every calibration run.

use vstd::prelude::*;
use crate::phrase::{
    lemma_equal_length_differs, lemma_foreign_char_absent, lemma_longer_phrase_absent,
    lemma_occurs_between, lemma_occurs_in_itself, occurs_in,
};
use crate::state::{script_to, ParserState};

verus! {

/// No marker stands inside the marker of another step.
proof fn lemma_markers_apart(step: ParserState, other: ParserState)
    requires
        step != other,
        step.marker() is Some,
        other.marker() is Some,
    ensures
        !occurs_in(step.marker().unwrap(), other.marker().unwrap()),
{
    reveal_strlit("test ready.start test now.");
    reveal_strlit("pole_pairs read done");
    reveal_strlit("offset read done.");
    reveal_strlit("R read done");
    reveal_strlit("Ld read done");
    reveal_strlit("Lq read done");
    reveal_strlit("Speed PI set done");
    let phrase = step.marker().unwrap();
    let line = other.marker().unwrap();
    match step {
        ParserState::Idle => lemma_longer_phrase_absent(phrase, line),
        ParserState::TestPolePairs => {
            if other is Idle {
                lemma_foreign_char_absent(phrase, line, 0);
            } else {
                lemma_longer_phrase_absent(phrase, line);
            }
        },
        ParserState::TestEncoderDirection => {
            if other is Idle || other is TestPolePairs || other is TestSpeedPI {
                lemma_foreign_char_absent(phrase, line, 1);
            } else {
                lemma_longer_phrase_absent(phrase, line);
            }
        },
        ParserState::TestR => lemma_foreign_char_absent(phrase, line, 0),
        ParserState::TestLd => {
            if other is TestR {
                lemma_longer_phrase_absent(phrase, line);
            } else if other is TestLq {
                lemma_equal_length_differs(phrase, line, 1);
            } else {
                lemma_foreign_char_absent(phrase, line, 0);
            }
        },
        ParserState::TestLq => lemma_foreign_char_absent(phrase, line, 1),
        ParserState::TestSpeedPI => lemma_foreign_char_absent(phrase, line, 0),
        ParserState::Done => {},
    }
}

/// The failure marker of the offset reading stands in no step's marker.
proof fn lemma_failure_marker_apart(other: ParserState)
    requires
        other.marker() is Some,
    ensures
        !occurs_in("offset read failed."@, other.marker().unwrap()),
{
    reveal_strlit("offset read failed.");
    reveal_strlit("test ready.start test now.");
    reveal_strlit("pole_pairs read done");
    reveal_strlit("offset read done.");
    reveal_strlit("R read done");
    reveal_strlit("Ld read done");
    reveal_strlit("Lq read done");
    reveal_strlit("Speed PI set done");
    let phrase = "offset read failed."@;
    let line = other.marker().unwrap();
    if other is Idle || other is TestPolePairs {
        lemma_foreign_char_absent(phrase, line, 1);
    } else {
        lemma_longer_phrase_absent(phrase, line);
    }
}

/// The step before `step`; `Idle` has none and stands for itself.
spec fn predecessor(step: ParserState) -> ParserState {
    match step {
        ParserState::Idle => ParserState::Idle,
        ParserState::TestPolePairs => ParserState::Idle,
        ParserState::TestEncoderDirection => ParserState::TestPolePairs,
        ParserState::TestR => ParserState::TestEncoderDirection,
        ParserState::TestLd => ParserState::TestR,
        ParserState::TestLq => ParserState::TestLd,
        ParserState::TestSpeedPI => ParserState::TestLq,
        ParserState::Done => ParserState::TestSpeedPI,
    }
}

/// The steps are told apart by their place in the run, and `Done` is the
/// last of them.
pub proof fn lemma_position_names_step(a: ParserState, b: ParserState)
    ensures
        a.position() <= 7,
        a.position() == 7 <==> a == ParserState::Done,
        a.position() == b.position() <==> a == b,
        a != ParserState::Done ==> a.successor().position() == a.position() + 1,
{
}

/// Fed to a fresh run, the markers of the steps before `step` take the
/// run to `step`, one step per line. For `Done` these are the markers of
/// a complete run.
pub proof fn lemma_script_reaches(step: ParserState)
    ensures
        script_to(step).len() == step.position(),
        ParserState::Idle.after_all(script_to(step)) == step,
    decreases step.position(),
{
    if step != ParserState::Idle {
        let before = predecessor(step);
        let marker = before.marker().unwrap();
        lemma_script_reaches(before);
        lemma_occurs_in_itself(marker);
        assert(script_to(step) =~= script_to(before).push(marker));
        assert(script_to(step).drop_last() =~= script_to(before));
    }
}

/// A line that holds the marker of the step the run stands in, alone or
/// among other text, is accepted and moves the run on by exactly one step.
/// This holds of every step but `Done`, reached from `Idle` by the markers
/// of the steps before it.
pub proof fn lemma_marker_advances(step: ParserState, line: Seq<char>)
    requires
        step.marker() matches Some(marker) && occurs_in(marker, line),
    ensures
        step.accepts(line),
        step.after(line) == step.successor(),
        step.after(line).position() == step.position() + 1,
        ParserState::Idle.after_all(script_to(step).push(line)) == step.successor(),
{
    lemma_script_reaches(step);
    assert(script_to(step).push(line).drop_last() =~= script_to(step));
}

/// The marker of a step is accepted in that step whatever text stands
/// before and behind it on the line.
pub proof fn lemma_surrounding_text_ignored(
    step: ParserState,
    before: Seq<char>,
    behind: Seq<char>,
)
    requires
        step.marker() is Some,
    ensures
        step.accepts(before + step.marker().unwrap() + behind),
        step.accepts(step.marker().unwrap()),
{
    lemma_occurs_between(before, step.marker().unwrap(), behind);
    lemma_occurs_in_itself(step.marker().unwrap());
}

/// A line without the marker of the current step is turned down and
/// leaves the run where it is, so that the same line, read again, is
/// turned down in the same words.
pub proof fn lemma_refusal_repeats(step: ParserState, line: Seq<char>)
    requires
        !step.accepts(line),
    ensures
        step.after(line) == step,
        !step.after(line).accepts(line),
        step.after(line).refusal(line) == step.refusal(line),
        step.after_all(seq![line, line]) == step,
        !step.reports_failure(line) ==> step.refusal(line) == step.unexpected_message(),
{
    let twice = seq![line, line];
    assert(twice.drop_last() =~= seq![line]);
    assert(seq![line].drop_last() =~= Seq::<Seq<char>>::empty());
    assert(step.after_all(Seq::<Seq<char>>::empty()) == step);
    assert(step.after_all(seq![line]) == step);
}

/// The marker of any other step, sent out of turn, is turned down as an
/// unexpected line and leaves the run where it is.
pub proof fn lemma_out_of_turn_refused(step: ParserState, other: ParserState)
    requires
        other != step,
        other.marker() is Some,
    ensures
        !step.accepts(other.marker().unwrap()),
        step.after(other.marker().unwrap()) == step,
        step.refusal(other.marker().unwrap()) == step.unexpected_message(),
{
    if step.marker() is Some {
        lemma_markers_apart(step, other);
    }
    lemma_failure_marker_apart(other);
}

/// The failure marker of the offset reading does not hold the marker of
/// its success.
proof fn lemma_failure_marker_is_no_success()
    ensures
        !occurs_in("offset read done."@, "offset read failed."@),
{
    reveal_strlit("offset read failed.");
    reveal_strlit("offset read done.");
    lemma_foreign_char_absent("offset read done."@, "offset read failed."@, 14);
}

/// While the offset is awaited, a line that holds the controller's failure
/// marker and not the marker of success is turned down with the failure
/// message, and the run stays where it is. The failure marker alone is
/// such a line.
pub proof fn lemma_offset_failure_reported(line: Seq<char>)
    requires
        occurs_in("offset read failed."@, line),
        !occurs_in("offset read done."@, line),
    ensures
        !ParserState::TestEncoderDirection.accepts(line),
        ParserState::TestEncoderDirection.after(line) == ParserState::TestEncoderDirection,
        ParserState::TestEncoderDirection.refusal(line) == "offset read failed"@,
        ParserState::TestEncoderDirection.refusal("offset read failed."@)
            == "offset read failed"@,
{
    lemma_failure_marker_is_no_success();
    lemma_occurs_in_itself("offset read failed."@);
}

/// Once the run is done it stays done: every further line is turned down
/// with the message for a finished run.
pub proof fn lemma_done_is_final(lines: Seq<Seq<char>>, line: Seq<char>)
    ensures
        !ParserState::Done.accepts(line),
        ParserState::Done.after(line) == ParserState::Done,
        ParserState::Done.refusal(line) == "invalid state, calibration is done"@,
        ParserState::Done.after_all(lines) == ParserState::Done,
    decreases lines.len(),
{
    if lines.len() > 0 {
        lemma_done_is_final(lines.drop_last(), line);
    }
}

/// A run only moves forward, by one step per line at most, and never
/// beyond `Done`.
pub proof fn lemma_run_moves_forward(step: ParserState, lines: Seq<Seq<char>>)
    ensures
        step.position() <= step.after_all(lines).position(),
        step.after_all(lines).position() <= step.position() + lines.len(),
        step.after_all(lines).position() <= 7,
    decreases lines.len(),
{
    if lines.len() > 0 {
        lemma_run_moves_forward(step, lines.drop_last());
    }
}

} // verus!
