//! The parser that follows a calibration run line by line.

use vstd::prelude::*;
use crate::phrase::contains_phrase;
use crate::state::ParserState;

verus! {

/// Follows one calibration run. The field is the step the run stands in.
pub struct CalibrationParser(pub ParserState);

impl CalibrationParser {
    /// A parser for a run that has not started yet.
    pub fn new() -> (parser: Self)
        ensures
            parser.0 == ParserState::Idle,
    {
        Self(ParserState::Idle)
    }

    /// Reads one line of the controller's output. Where the line holds the
    /// marker of the current step, the parser moves on to the next step;
    /// otherwise it stays where it is and says why the line was turned down.
    pub fn parse(&mut self, line: &str) -> (result: Result<(), String>)
        ensures
            result is Ok <==> old(self).0.accepts(line@),
            final(self).0 == old(self).0.after(line@),
            result matches Err(message) ==> message@ == old(self).0.refusal(line@),
            final(self).0.position() == old(self).0.position() + if result is Ok {
                1nat
            } else {
                0nat
            },
    {
        match self.0 {
            ParserState::Idle => {
                if contains_phrase(line, "test ready.start test now.") {
                    self.0 = ParserState::TestPolePairs;
                    Ok(())
                } else {
                    Err("invalid state, waiting for start".to_string())
                }
            },
            ParserState::TestPolePairs => {
                if contains_phrase(line, "pole_pairs read done") {
                    self.0 = ParserState::TestEncoderDirection;
                    Ok(())
                } else {
                    Err("invalid state, waiting for pole pairs".to_string())
                }
            },
            ParserState::TestEncoderDirection => {
                if contains_phrase(line, "offset read done.") {
                    self.0 = ParserState::TestR;
                    Ok(())
                } else if contains_phrase(line, "offset read failed.") {
                    Err("offset read failed".to_string())
                } else {
                    Err("invalid state, waiting for offset".to_string())
                }
            },
            ParserState::TestR => {
                if contains_phrase(line, "R read done") {
                    self.0 = ParserState::TestLd;
                    Ok(())
                } else {
                    Err("invalid state, waiting for R".to_string())
                }
            },
            ParserState::TestLd => {
                if contains_phrase(line, "Ld read done") {
                    self.0 = ParserState::TestLq;
                    Ok(())
                } else {
                    Err("invalid state, waiting for Ld".to_string())
                }
            },
            ParserState::TestLq => {
                if contains_phrase(line, "Lq read done") {
                    self.0 = ParserState::TestSpeedPI;
                    Ok(())
                } else {
                    Err("invalid state, waiting for Lq".to_string())
                }
            },
            ParserState::TestSpeedPI => {
                if contains_phrase(line, "Speed PI set done") {
                    self.0 = ParserState::Done;
                    Ok(())
                } else {
                    Err("invalid state, waiting for SpeedPI".to_string())
                }
            },
            ParserState::Done => Err("invalid state, calibration is done".to_string()),
        }
    }

    /// Whether the run has come to its end.
    pub fn is_done(&self) -> (done: bool)
        ensures
            done == (self.0 == ParserState::Done),
    {
        self.0 == ParserState::Done
    }
}

} // verus!
