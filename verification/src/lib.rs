//! Tracks the progress of a motor calibration run by reading the
//! controller's diagnostic output one line at a time.

pub mod parser;
pub mod phrase;
pub mod state;
pub mod theorems;

pub use parser::CalibrationParser;
pub use state::ParserState;
