//! Properties that hold of every sequence of operations on a session.
use vstd::prelude::*;
use crate::session::{lemma_mismatches_bounded, lemma_mismatches_push, mismatches, SessionView};
use crate::stats::accuracy_of;

verus! {

/// The session after the keystrokes `keys`, in order, starting from `s`.
pub open spec fn type_all(s: SessionView, keys: Seq<char>) -> SessionView
    decreases keys.len(),
{
    if keys.len() == 0 {
        s
    } else {
        type_all(s, keys.drop_last()).type_char(keys.last())
    }
}

/// After a reset, the keystrokes typed are exactly the history.
pub proof fn lemma_type_all_history(s: SessionView, text: Seq<char>, keys: Seq<char>)
    ensures
        type_all(s.reset_to(text), keys).history == keys,
        type_all(s.reset_to(text), keys).target == text,
        type_all(s.reset_to(text), keys).started == (keys.len() > 0),
    decreases keys.len(),
{
    if keys.len() > 0 {
        lemma_type_all_history(s, text, keys.drop_last());
        assert(keys.drop_last().push(keys.last()) =~= keys);
    }
}

/// The keystroke count after any keystrokes since a reset is the number of
/// keystrokes, and it is the denominator of the reported accuracy.
pub proof fn lemma_keystroke_count(s: SessionView, text: Seq<char>, keys: Seq<char>)
    requires
        keys.len() <= u32::MAX,
    ensures
        type_all(s.reset_to(text), keys).keystrokes() == keys.len(),
        keys.len() > 0 ==> accuracy_of(
            type_all(s.reset_to(text), keys).keystrokes(),
            type_all(s.reset_to(text), keys).errors(),
        ).den == keys.len(),
{
    lemma_type_all_history(s, text, keys);
}

/// Resetting twice to the same text is the same as resetting once, and so is
/// every keystroke that follows.
pub proof fn lemma_reset_idempotent(s: SessionView, text: Seq<char>, ch: char)
    ensures
        s.reset_to(text).reset_to(text) == s.reset_to(text),
        s.reset_to(text).reset_to(text).type_char(ch) == s.reset_to(text).type_char(ch),
{
}

/// No prefix of the target is judged wrong against it.
proof fn lemma_prefix_no_mismatch(target: Seq<char>, n: int)
    requires
        0 <= n <= target.len(),
    ensures
        mismatches(target, target.take(n)) == 0,
    decreases n,
{
    if n > 0 {
        lemma_prefix_no_mismatch(target, n - 1);
        assert(target.take(n).drop_last() =~= target.take(n - 1));
    }
}

/// Typing the target text exactly after a reset leaves no errors and, once
/// anything is typed, an accuracy of exactly 100.
pub proof fn lemma_exact_typing(s: SessionView, text: Seq<char>)
    requires
        text.len() <= u32::MAX,
    ensures
        type_all(s.reset_to(text), text).errors() == 0,
        text.len() > 0 ==> ({
            let a = accuracy_of(
                type_all(s.reset_to(text), text).keystrokes(),
                type_all(s.reset_to(text), text).errors(),
            );
            a.num == 100 * a.den
        }),
{
    lemma_type_all_history(s, text, text);
    lemma_prefix_no_mismatch(text, text.len() as int);
    assert(text.take(text.len() as int) =~= text);
}

/// A keystroke that differs from the target character at its position adds
/// exactly one error, and the accuracy after it is below 100.
pub proof fn lemma_mismatch_adds_one_error(s: SessionView, ch: char)
    requires
        s.history.len() < s.target.len(),
        s.target[s.history.len() as int] != ch,
        s.history.len() < u32::MAX,
    ensures
        s.type_char(ch).errors() == s.errors() + 1,
        ({
            let a = accuracy_of(s.type_char(ch).keystrokes(), s.type_char(ch).errors());
            a.num < 100 * a.den
        }),
{
    lemma_mismatches_push(s.target, s.history, ch);
    lemma_mismatches_bounded(s.target, s.history);
}

} // verus!
