use calibration_parser::{CalibrationParser, ParserState};

const SCRIPT: [&str; 7] = [
    "test ready.start test now.",
    "pole_pairs read done",
    "offset read done.",
    "R read done",
    "Ld read done",
    "Lq read done",
    "Speed PI set done",
];

const STEPS: [ParserState; 8] = [
    ParserState::Idle,
    ParserState::TestPolePairs,
    ParserState::TestEncoderDirection,
    ParserState::TestR,
    ParserState::TestLd,
    ParserState::TestLq,
    ParserState::TestSpeedPI,
    ParserState::Done,
];

const UNEXPECTED: [&str; 8] = [
    "invalid state, waiting for start",
    "invalid state, waiting for pole pairs",
    "invalid state, waiting for offset",
    "invalid state, waiting for R",
    "invalid state, waiting for Ld",
    "invalid state, waiting for Lq",
    "invalid state, waiting for SpeedPI",
    "invalid state, calibration is done",
];

fn parser_in(index: usize) -> CalibrationParser {
    let mut parser = CalibrationParser::new();
    for line in &SCRIPT[..index] {
        assert_eq!(parser.parse(line), Ok(()));
    }
    assert_eq!(parser.0, STEPS[index]);
    parser
}

fn refused(parser: &mut CalibrationParser, line: &str) -> String {
    match parser.parse(line) {
        Ok(()) => panic!("accepted {:?} in {:?}", line, parser.0),
        Err(message) => message,
    }
}

#[test]
fn idle_refuses_unrelated_line() {
    let mut parser = CalibrationParser(ParserState::Idle);
    assert_eq!(parser.parse("booting"), Err("invalid state, waiting for start".to_string()));
    assert_eq!(parser.0, ParserState::Idle);
}

#[test]
fn pole_pairs_refuses_unrelated_line() {
    let mut parser = CalibrationParser(ParserState::TestPolePairs);
    assert_eq!(
        parser.parse("booting"),
        Err("invalid state, waiting for pole pairs".to_string())
    );
    assert_eq!(parser.0, ParserState::TestPolePairs);
}

#[test]
fn encoder_direction_refuses_unrelated_line() {
    let mut parser = CalibrationParser(ParserState::TestEncoderDirection);
    assert_eq!(parser.parse("booting"), Err("invalid state, waiting for offset".to_string()));
    assert_eq!(parser.0, ParserState::TestEncoderDirection);
}

#[test]
fn resistance_refuses_unrelated_line() {
    let mut parser = CalibrationParser(ParserState::TestR);
    assert_eq!(parser.parse("booting"), Err("invalid state, waiting for R".to_string()));
    assert_eq!(parser.0, ParserState::TestR);
}

#[test]
fn inductance_d_refuses_unrelated_line() {
    let mut parser = CalibrationParser(ParserState::TestLd);
    assert_eq!(parser.parse("booting"), Err("invalid state, waiting for Ld".to_string()));
    assert_eq!(parser.0, ParserState::TestLd);
}

#[test]
fn inductance_q_refuses_unrelated_line() {
    let mut parser = CalibrationParser(ParserState::TestLq);
    assert_eq!(parser.parse("booting"), Err("invalid state, waiting for Lq".to_string()));
    assert_eq!(parser.0, ParserState::TestLq);
}

#[test]
fn speed_gains_refuses_unrelated_line() {
    let mut parser = CalibrationParser(ParserState::TestSpeedPI);
    assert_eq!(parser.parse("booting"), Err("invalid state, waiting for SpeedPI".to_string()));
    assert_eq!(parser.0, ParserState::TestSpeedPI);
}

#[test]
fn done_refuses_unrelated_line() {
    let mut parser = CalibrationParser(ParserState::Done);
    assert_eq!(
        parser.parse("booting"),
        Err("invalid state, calibration is done".to_string())
    );
    assert_eq!(parser.0, ParserState::Done);
}

#[test]
fn empty_line_is_refused_in_every_step() {
    for index in 0..8 {
        let mut parser = parser_in(index);
        assert_eq!(refused(&mut parser, ""), UNEXPECTED[index]);
        assert_eq!(parser.0, STEPS[index]);
    }
}

#[test]
fn refusal_leaves_step_and_repeats_in_the_same_words() {
    for index in 0..8 {
        let mut parser = parser_in(index);
        let first = refused(&mut parser, "noise on the line");
        assert_eq!(parser.0, STEPS[index]);
        let second = refused(&mut parser, "noise on the line");
        assert_eq!(parser.0, STEPS[index]);
        assert_eq!(first, second);
        assert_eq!(first, UNEXPECTED[index]);
    }
}

#[test]
fn resistance_marker_while_idle_is_refused() {
    let mut parser = CalibrationParser::new();
    assert_eq!(parser.parse("R read done"), Err("invalid state, waiting for start".to_string()));
    assert_eq!(parser.0, ParserState::Idle);
    assert!(!parser.is_done());
}

#[test]
fn marker_of_any_other_step_is_refused() {
    for index in 0..8 {
        for (other, line) in SCRIPT.iter().enumerate() {
            if other == index {
                continue;
            }
            let mut parser = parser_in(index);
            assert_eq!(refused(&mut parser, line), UNEXPECTED[index]);
            assert_eq!(parser.0, STEPS[index]);
        }
    }
}

#[test]
fn markers_fed_backwards_never_leave_idle() {
    let mut parser = CalibrationParser::new();
    for line in SCRIPT.iter().skip(1).rev() {
        assert_eq!(refused(&mut parser, line), "invalid state, waiting for start");
        assert_eq!(parser.0, ParserState::Idle);
    }
}

#[test]
fn skipping_a_step_is_refused() {
    let mut parser = parser_in(1);
    assert_eq!(refused(&mut parser, "offset read done."), "invalid state, waiting for pole pairs");
    assert_eq!(parser.0, ParserState::TestPolePairs);
}

#[test]
fn earlier_marker_does_not_take_the_run_back() {
    let mut parser = parser_in(5);
    assert_eq!(refused(&mut parser, "Ld read done"), "invalid state, waiting for Lq");
    assert_eq!(parser.0, ParserState::TestLq);
}

#[test]
fn offset_failure_is_reported_as_such() {
    let mut parser = parser_in(2);
    assert_eq!(parser.parse("offset read failed."), Err("offset read failed".to_string()));
    assert_eq!(parser.0, ParserState::TestEncoderDirection);
    assert!(!parser.is_done());
}

#[test]
fn offset_failure_inside_other_text_is_reported() {
    let mut parser = CalibrationParser(ParserState::TestEncoderDirection);
    assert_eq!(refused(&mut parser, "E12: offset read failed. retrying"), "offset read failed");
    assert_eq!(parser.0, ParserState::TestEncoderDirection);
}

#[test]
fn offset_can_be_read_after_a_reported_failure() {
    let mut parser = parser_in(2);
    assert_eq!(refused(&mut parser, "offset read failed."), "offset read failed");
    assert_eq!(parser.parse("offset read done."), Ok(()));
    assert_eq!(parser.0, ParserState::TestR);
}

#[test]
fn offset_success_wins_over_failure_on_one_line() {
    let mut parser = parser_in(2);
    assert_eq!(parser.parse("offset read failed. offset read done."), Ok(()));
    assert_eq!(parser.0, ParserState::TestR);
}

#[test]
fn offset_failure_without_full_stop_is_an_unexpected_line() {
    let mut parser = parser_in(2);
    assert_eq!(refused(&mut parser, "offset read failed"), "invalid state, waiting for offset");
    assert_eq!(parser.0, ParserState::TestEncoderDirection);
}

#[test]
fn offset_failure_outside_its_step_is_an_unexpected_line() {
    for index in [0, 1, 3, 4, 5, 6, 7] {
        let mut parser = parser_in(index);
        assert_eq!(refused(&mut parser, "offset read failed."), UNEXPECTED[index]);
        assert_eq!(parser.0, STEPS[index]);
    }
}

#[test]
fn offset_marker_without_full_stop_is_refused() {
    let mut parser = parser_in(2);
    assert_eq!(refused(&mut parser, "offset read done"), "invalid state, waiting for offset");
    assert_eq!(parser.0, ParserState::TestEncoderDirection);
}

#[test]
fn start_marker_without_full_stop_is_refused() {
    let mut parser = CalibrationParser::new();
    assert_eq!(
        refused(&mut parser, "test ready.start test now"),
        "invalid state, waiting for start"
    );
    assert_eq!(parser.0, ParserState::Idle);
}

#[test]
fn marker_in_other_case_is_refused() {
    let mut parser = parser_in(3);
    assert_eq!(refused(&mut parser, "r read done"), "invalid state, waiting for R");
    assert_eq!(refused(&mut parser, "R READ DONE"), "invalid state, waiting for R");
    assert_eq!(parser.0, ParserState::TestR);
}

#[test]
fn marker_cut_short_is_refused() {
    let mut parser = parser_in(1);
    assert_eq!(
        refused(&mut parser, "pole_pairs read don"),
        "invalid state, waiting for pole pairs"
    );
    assert_eq!(parser.0, ParserState::TestPolePairs);
}

#[test]
fn marker_with_text_inside_it_is_refused() {
    let mut parser = parser_in(4);
    assert_eq!(refused(&mut parser, "Ld  read done"), "invalid state, waiting for Ld");
    assert_eq!(refused(&mut parser, "Ld read\tdone"), "invalid state, waiting for Ld");
    assert_eq!(parser.0, ParserState::TestLd);
}

#[test]
fn done_refuses_every_line_and_stays_done() {
    let mut parser = parser_in(7);
    assert!(parser.is_done());
    let lines = ["", "noise", "offset read failed.", "Speed PI set done"];
    for line in SCRIPT.iter().chain(lines.iter()) {
        assert_eq!(
            parser.parse(line),
            Err("invalid state, calibration is done".to_string())
        );
        assert!(parser.is_done());
        assert_eq!(parser.0, ParserState::Done);
    }
}
