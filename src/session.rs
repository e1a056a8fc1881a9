//! The state of one typing attempt and the engine that owns it.
use vstd::prelude::*;
use vstd::string::StrSliceExecFns;
use std::time::{Duration, Instant};
use crate::stats::{snapshot, snapshot_of, StatsSnapshot};

verus! {

#[verifier::external_type_specification]
#[verifier::external_body]
pub struct ExInstant(Instant);

/// Relies on std's `Instant::now`: a reading of the monotonic clock, to time
/// the session from its first keystroke.
pub assume_specification[ Instant::now ]() -> Instant;

/// Relies on std's `Instant::elapsed`: the time since a reading of the clock.
pub assume_specification[ Instant::elapsed ](start: &Instant) -> Duration;

/// Relies on std's `Duration::as_nanos`: a duration as whole nanoseconds.
pub assume_specification[ Duration::as_nanos ](d: &Duration) -> u128;

/// Whether the keystroke `ch` at position `i` is judged wrong against
/// `target`: only a position that the target has is judged.
pub open spec fn is_error(target: Seq<char>, i: int, ch: char) -> bool {
    0 <= i < target.len() && target[i] != ch
}

/// The number of positions of `typed` that are judged wrong against `target`.
pub open spec fn mismatches(target: Seq<char>, typed: Seq<char>) -> nat
    decreases typed.len(),
{
    if typed.len() == 0 {
        0
    } else {
        let i = typed.len() - 1;
        mismatches(target, typed.drop_last()) + if is_error(target, i, typed[i]) {
            1nat
        } else {
            0nat
        }
    }
}

/// A session seen abstractly: the target text, the characters typed since the
/// last reset, and whether its timer runs.
pub struct SessionView {
    pub target: Seq<char>,
    pub history: Seq<char>,
    pub started: bool,
}

impl SessionView {
    pub open spec fn keystrokes(self) -> nat {
        self.history.len()
    }

    pub open spec fn errors(self) -> nat {
        mismatches(self.target, self.history)
    }

    /// The session before any reset: an empty target and nothing typed.
    pub open spec fn initial() -> SessionView {
        SessionView { target: Seq::empty(), history: Seq::empty(), started: false }
    }

    /// The session after a reset to `text`: whatever came before is discarded.
    pub open spec fn reset_to(self, text: Seq<char>) -> SessionView {
        SessionView { target: text, history: Seq::empty(), started: false }
    }

    /// The session after one more keystroke `ch`.
    pub open spec fn type_char(self, ch: char) -> SessionView {
        SessionView { target: self.target, history: self.history.push(ch), started: true }
    }
}

/// The state of the current typing attempt.
///
/// `keystrokes` counts the characters in `input_history`, `errors` those of
/// them judged wrong, and `start_time` is set exactly when something has been
/// typed since the last reset.
#[derive(Clone, Debug)]
pub struct TypingSession {
    pub target_text: String,
    pub input_history: Vec<char>,
    pub start_time: Option<Instant>,
    pub keystrokes: u32,
    pub errors: u32,
}

impl View for TypingSession {
    type V = SessionView;

    open spec fn view(&self) -> SessionView {
        SessionView {
            target: self.target_text@,
            history: self.input_history@,
            started: self.start_time.is_some(),
        }
    }
}

impl TypingSession {
    pub open spec fn wf(&self) -> bool {
        &&& self.keystrokes == self.input_history@.len()
        &&& self.errors == mismatches(self.target_text@, self.input_history@)
        &&& self.start_time.is_some() <==> self.keystrokes > 0
    }
}

/// At most every keystroke is judged wrong.
pub proof fn lemma_mismatches_bounded(target: Seq<char>, typed: Seq<char>)
    ensures
        mismatches(target, typed) <= typed.len(),
    decreases typed.len(),
{
    if typed.len() > 0 {
        lemma_mismatches_bounded(target, typed.drop_last());
    }
}

/// One more keystroke adds one error exactly when it is judged wrong.
pub proof fn lemma_mismatches_push(target: Seq<char>, typed: Seq<char>, ch: char)
    ensures
        mismatches(target, typed.push(ch)) == mismatches(target, typed) + if is_error(
            target,
            typed.len() as int,
            ch,
        ) {
            1nat
        } else {
            0nat
        },
{
    assert(typed.push(ch).drop_last() =~= typed);
}

/// The typing engine: it owns the current session, which every operation
/// reads and changes in place. Callers that share an engine between threads
/// hold it behind a lock of their own.
pub struct EngineState {
    pub session: TypingSession,
}

impl EngineState {
    pub open spec fn wf(&self) -> bool {
        self.session.wf()
    }

    /// An engine with an empty target text and nothing typed.
    pub fn new() -> (r: Self)
        ensures
            r.wf(),
            r.session@ == SessionView::initial(),
    {
        EngineState {
            session: TypingSession {
                target_text: String::new(),
                input_history: Vec::new(),
                start_time: None,
                keystrokes: 0,
                errors: 0,
            },
        }
    }

    /// Starts a new session against `text`: the history, the timer and both
    /// counts are cleared.
    pub fn reset(&mut self, text: String)
        ensures
            final(self).wf(),
            final(self).session@ == old(self).session@.reset_to(text@),
    {
        self.session.target_text = text;
        self.session.input_history.clear();
        self.session.start_time = None;
        self.session.keystrokes = 0;
        self.session.errors = 0;
        assert(self.session.input_history@ =~= Seq::<char>::empty());
    }

    /// Records the keystroke `char_code` and returns the statistics after it.
    ///
    /// The first keystroke of a session starts its timer and is reported at
    /// zero elapsed time; later ones are timed from it.
    pub fn process_input(&mut self, char_code: char) -> (r: StatsSnapshot)
        requires
            old(self).wf(),
            old(self).session.keystrokes < u32::MAX,
        ensures
            final(self).wf(),
            final(self).session@ == old(self).session@.type_char(char_code),
            r.keystrokes == final(self).session@.keystrokes(),
            r.errors == final(self).session@.errors(),
            r == snapshot_of(r.keystrokes, r.errors, r.elapsed_nanos),
            !old(self).session@.started ==> r.elapsed_nanos == 0,
            r.wf(),
    {
        let starts_now = self.session.start_time.is_none();
        if starts_now {
            self.session.start_time = Some(Instant::now());
        }
        let index = self.session.input_history.len();
        proof {
            lemma_mismatches_bounded(self.session.target_text@, self.session.input_history@);
            lemma_mismatches_push(self.session.target_text@, self.session.input_history@, char_code);
        }
        self.session.input_history.push(char_code);
        self.session.keystrokes = self.session.keystrokes + 1;
        let target = self.session.target_text.as_str();
        if index < target.unicode_len() {
            if target.get_char(index) != char_code {
                self.session.errors = self.session.errors + 1;
            }
        }
        let elapsed_nanos: u128 = if starts_now {
            0
        } else {
            match &self.session.start_time {
                Some(start) => start.elapsed().as_nanos(),
                None => 0,
            }
        };
        snapshot(self.session.keystrokes, self.session.errors, elapsed_nanos)
    }
}

} // verus!
