//! The steps of a calibration run and the phrases that close them.

use vstd::prelude::*;
use crate::phrase::occurs_in;

verus! {

/// One stage of the calibration run, in the order the controller
/// works through them.
#[derive(Debug, Clone, Copy, PartialEq, Eq, Structural)]
pub enum ParserState {
    Idle,
    TestPolePairs,
    TestEncoderDirection,
    TestR,
    TestLd,
    TestLq,
    TestSpeedPI,
    Done,
}

impl ParserState {
    /// Place of the step in the run, counted from `Idle`.
    pub open spec fn position(self) -> nat {
        match self {
            ParserState::Idle => 0,
            ParserState::TestPolePairs => 1,
            ParserState::TestEncoderDirection => 2,
            ParserState::TestR => 3,
            ParserState::TestLd => 4,
            ParserState::TestLq => 5,
            ParserState::TestSpeedPI => 6,
            ParserState::Done => 7,
        }
    }

    /// The step that follows this one; `Done` is followed by itself.
    pub open spec fn successor(self) -> ParserState {
        match self {
            ParserState::Idle => ParserState::TestPolePairs,
            ParserState::TestPolePairs => ParserState::TestEncoderDirection,
            ParserState::TestEncoderDirection => ParserState::TestR,
            ParserState::TestR => ParserState::TestLd,
            ParserState::TestLd => ParserState::TestLq,
            ParserState::TestLq => ParserState::TestSpeedPI,
            ParserState::TestSpeedPI => ParserState::Done,
            ParserState::Done => ParserState::Done,
        }
    }

    /// The phrase whose appearance closes this step; `Done` has none.
    pub open spec fn marker(self) -> Option<Seq<char>> {
        match self {
            ParserState::Idle => Some("test ready.start test now."@),
            ParserState::TestPolePairs => Some("pole_pairs read done"@),
            ParserState::TestEncoderDirection => Some("offset read done."@),
            ParserState::TestR => Some("R read done"@),
            ParserState::TestLd => Some("Ld read done"@),
            ParserState::TestLq => Some("Lq read done"@),
            ParserState::TestSpeedPI => Some("Speed PI set done"@),
            ParserState::Done => None,
        }
    }

    /// The phrase by which the controller reports that this step went
    /// wrong; only the encoder offset reading has one.
    pub open spec fn failure_marker(self) -> Option<Seq<char>> {
        match self {
            ParserState::TestEncoderDirection => Some("offset read failed."@),
            _ => None,
        }
    }

    /// What is reported for a line that says nothing about this step; in
    /// `Done`, that the run is over.
    pub open spec fn unexpected_message(self) -> Seq<char> {
        match self {
            ParserState::Idle => "invalid state, waiting for start"@,
            ParserState::TestPolePairs => "invalid state, waiting for pole pairs"@,
            ParserState::TestEncoderDirection => "invalid state, waiting for offset"@,
            ParserState::TestR => "invalid state, waiting for R"@,
            ParserState::TestLd => "invalid state, waiting for Ld"@,
            ParserState::TestLq => "invalid state, waiting for Lq"@,
            ParserState::TestSpeedPI => "invalid state, waiting for SpeedPI"@,
            ParserState::Done => "invalid state, calibration is done"@,
        }
    }

    /// What is reported when the controller itself says the step failed.
    pub open spec fn failure_message(self) -> Seq<char> {
        "offset read failed"@
    }

    /// The line closes this step: it holds the step's marker.
    pub open spec fn accepts(self, line: Seq<char>) -> bool {
        match self.marker() {
            Some(marker) => occurs_in(marker, line),
            None => false,
        }
    }

    /// The line does not close this step and holds the step's failure
    /// marker.
    pub open spec fn reports_failure(self, line: Seq<char>) -> bool {
        &&& !self.accepts(line)
        &&& self.failure_marker() matches Some(marker)
        &&& occurs_in(marker, line)
    }

    /// The message with which a line that does not close this step is
    /// turned down.
    pub open spec fn refusal(self, line: Seq<char>) -> Seq<char> {
        if self.reports_failure(line) {
            self.failure_message()
        } else {
            self.unexpected_message()
        }
    }

    /// The step in which the run stands once `line` has been read.
    pub open spec fn after(self, line: Seq<char>) -> ParserState {
        if self.accepts(line) {
            self.successor()
        } else {
            self
        }
    }

    /// The step in which the run stands once all of `lines` have been
    /// read, first to last.
    pub open spec fn after_all(self, lines: Seq<Seq<char>>) -> ParserState
        decreases lines.len(),
    {
        if lines.len() == 0 {
            self
        } else {
            self.after_all(lines.drop_last()).after(lines.last())
        }
    }
}

/// The markers of a complete run, in the order the controller sends them.
pub open spec fn full_script() -> Seq<Seq<char>> {
    seq![
        "test ready.start test now."@,
        "pole_pairs read done"@,
        "offset read done."@,
        "R read done"@,
        "Ld read done"@,
        "Lq read done"@,
        "Speed PI set done"@,
    ]
}

/// The markers that take a fresh run up to `step`.
pub open spec fn script_to(step: ParserState) -> Seq<Seq<char>> {
    full_script().take(step.position() as int)
}

} // verus!
