//! The figures reported after a keystroke, as exact fractions.
use vstd::prelude::*;

verus! {

/// Nanoseconds in one minute.
pub const NANOS_PER_MINUTE: u128 = 60_000_000_000;

/// Characters that count as one word in words-per-minute figures.
pub const CHARS_PER_WORD: u128 = 5;

/// Nanoseconds in one minute divided by the characters in a word: a count of
/// characters times this, over elapsed nanoseconds, is words per minute.
pub const WORD_MINUTE_NANOS: u128 = NANOS_PER_MINUTE / CHARS_PER_WORD;

/// A non-negative fraction `num / den`; well formed when `den > 0`.
#[derive(Clone, Copy, Debug, PartialEq, Eq, Structural)]
pub struct Ratio {
    pub num: u128,
    pub den: u128,
}

impl Ratio {
    pub open spec fn wf(self) -> bool {
        self.den > 0
    }

    pub open spec fn spec_new(num: int, den: int) -> Ratio {
        Ratio { num: num as u128, den: den as u128 }
    }
}

/// Statistics of a session after one keystroke.
///
/// `wpm` is net words per minute (never negative), `raw_wpm` gross words per
/// minute, `accuracy` a percentage and `consistency` a fixed placeholder of
/// one. While no time has elapsed since the first keystroke of the session the
/// two speeds are reported as zero rather than as a division by zero.
#[derive(Clone, Copy, Debug, PartialEq, Eq, Structural)]
pub struct StatsSnapshot {
    pub keystrokes: u32,
    pub errors: u32,
    pub elapsed_nanos: u128,
    pub wpm: Ratio,
    pub raw_wpm: Ratio,
    pub accuracy: Ratio,
    pub consistency: Ratio,
}

/// Gross speed: `(keystrokes / 5) / elapsed_minutes`, or zero at zero elapsed time.
pub open spec fn raw_wpm_of(keystrokes: nat, elapsed_nanos: nat) -> Ratio {
    if elapsed_nanos == 0 {
        Ratio::spec_new(0, 1)
    } else {
        Ratio::spec_new(keystrokes * WORD_MINUTE_NANOS, elapsed_nanos as int)
    }
}

/// Net speed: the gross speed less `errors / elapsed_minutes`, clamped at zero,
/// or zero at zero elapsed time.
pub open spec fn net_wpm_of(keystrokes: nat, errors: nat, elapsed_nanos: nat) -> Ratio {
    if elapsed_nanos == 0 || keystrokes < CHARS_PER_WORD * errors {
        Ratio::spec_new(0, 1)
    } else {
        Ratio::spec_new(
            (keystrokes - CHARS_PER_WORD * errors) * WORD_MINUTE_NANOS,
            elapsed_nanos as int,
        )
    }
}

/// Accuracy in percent: `100 * (1 - errors / keystrokes)`, or 100 with no keystrokes.
pub open spec fn accuracy_of(keystrokes: nat, errors: nat) -> Ratio {
    if keystrokes == 0 {
        Ratio::spec_new(100, 1)
    } else {
        Ratio::spec_new(100 * (keystrokes - errors), keystrokes as int)
    }
}

/// The snapshot for the given counts and elapsed time.
pub open spec fn snapshot_of(keystrokes: u32, errors: u32, elapsed_nanos: u128) -> StatsSnapshot {
    StatsSnapshot {
        keystrokes,
        errors,
        elapsed_nanos,
        wpm: net_wpm_of(keystrokes as nat, errors as nat, elapsed_nanos as nat),
        raw_wpm: raw_wpm_of(keystrokes as nat, elapsed_nanos as nat),
        accuracy: accuracy_of(keystrokes as nat, errors as nat),
        consistency: Ratio::spec_new(1, 1),
    }
}

impl StatsSnapshot {
    /// Every fraction has a positive denominator and accuracy lies in `[0, 100]`.
    pub open spec fn wf(self) -> bool {
        &&& self.wpm.wf()
        &&& self.raw_wpm.wf()
        &&& self.accuracy.wf()
        &&& self.consistency.wf()
        &&& self.accuracy.num <= 100 * self.accuracy.den
    }
}

/// Computes the statistics for `keystrokes` keystrokes of which `errors` were
/// wrong, `elapsed_nanos` nanoseconds after the first of them.
pub fn snapshot(keystrokes: u32, errors: u32, elapsed_nanos: u128) -> (r: StatsSnapshot)
    requires
        errors <= keystrokes,
    ensures
        r == snapshot_of(keystrokes, errors, elapsed_nanos),
        r.wf(),
{
    let k = keystrokes as u128;
    let e = errors as u128;
    let (raw_wpm, wpm) = if elapsed_nanos == 0 {
        (Ratio { num: 0, den: 1 }, Ratio { num: 0, den: 1 })
    } else {
        let raw = Ratio { num: k * WORD_MINUTE_NANOS, den: elapsed_nanos };
        let net = if k < CHARS_PER_WORD * e {
            Ratio { num: 0, den: 1 }
        } else {
            Ratio { num: (k - CHARS_PER_WORD * e) * WORD_MINUTE_NANOS, den: elapsed_nanos }
        };
        (raw, net)
    };
    let accuracy = if keystrokes == 0 {
        Ratio { num: 100, den: 1 }
    } else {
        Ratio { num: 100 * (k - e), den: k }
    };
    assert(accuracy.num <= 100 * accuracy.den);
    StatsSnapshot {
        keystrokes,
        errors,
        elapsed_nanos,
        wpm,
        raw_wpm,
        accuracy,
        consistency: Ratio { num: 1, den: 1 },
    }
}

} // verus!
