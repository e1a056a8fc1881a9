//! Scoring engine for a typing-speed test: it judges each keystroke against a
//! target text and reports speed and accuracy after every keystroke.
pub mod laws;
pub mod session;
pub mod stats;

pub use session::{EngineState, TypingSession};
pub use stats::{Ratio, StatsSnapshot};
