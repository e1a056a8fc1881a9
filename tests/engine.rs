use typing_engine::stats::snapshot;
use typing_engine::{EngineState, Ratio, StatsSnapshot};

fn value(r: Ratio) -> f64 {
    r.num as f64 / r.den as f64
}

fn engine_at(text: &str) -> EngineState {
    let mut e = EngineState::new();
    e.reset(text.to_string());
    e
}

fn type_str(e: &mut EngineState, s: &str) -> Vec<StatsSnapshot> {
    s.chars().map(|c| e.process_input(c)).collect()
}

#[test]
fn cat_scenario() {
    let mut e = engine_at("cat");
    let s = e.process_input('c');
    assert_eq!(value(s.accuracy), 100.0);
    assert_eq!(s.errors, 0);
    let s = e.process_input('x');
    assert_eq!(s.errors, 1);
    assert_eq!(value(s.accuracy), 50.0);
    let s = e.process_input('t');
    assert_eq!(s.errors, 1);
    assert!((value(s.accuracy) - 66.67).abs() < 0.01);
    assert_eq!(s.accuracy, Ratio { num: 200, den: 3 });
}

#[test]
fn empty_target_counts_but_does_not_judge() {
    let mut e = engine_at("");
    let s = e.process_input('a');
    assert_eq!(s.errors, 0);
    assert_eq!(value(s.accuracy), 100.0);
    assert_eq!(s.keystrokes, 1);
    assert_eq!(e.session.keystrokes, 1);
    assert_eq!(e.session.input_history, vec!['a']);
}

#[test]
fn second_reset_discards_first() {
    let mut e = engine_at("xyz");
    type_str(&mut e, "ab");
    e.reset("abc".to_string());
    e.reset("qrs".to_string());
    assert!(e.session.input_history.is_empty());
    assert!(e.session.start_time.is_none());
    let s = e.process_input('a');
    assert_eq!(s.keystrokes, 1);
    assert_eq!(s.errors, 1);
    let s = e.process_input('r');
    assert_eq!(s.keystrokes, 2);
    assert_eq!(s.errors, 1);
}

#[test]
fn keystroke_count_matches_calls() {
    let mut e = engine_at("hello");
    let snaps = type_str(&mut e, "hexlo world");
    for (i, s) in snaps.iter().enumerate() {
        assert_eq!(s.keystrokes as usize, i + 1);
        assert_eq!(s.accuracy.den as usize, i + 1);
    }
    assert_eq!(e.session.keystrokes, 11);
    assert_eq!(e.session.errors, 1);
}

#[test]
fn figures_stay_in_range() {
    let mut e = engine_at("abc");
    for s in type_str(&mut e, "zzzzzzzz") {
        let a = value(s.accuracy);
        assert!((0.0..=100.0).contains(&a));
        assert!(value(s.wpm) >= 0.0);
        assert!(value(s.raw_wpm) >= 0.0);
        assert_eq!(value(s.consistency), 1.0);
    }
}

#[test]
fn reset_twice_same_as_once() {
    let mut once = engine_at("dog");
    type_str(&mut once, "xx");
    once.reset("dog".to_string());
    let mut twice = engine_at("dog");
    type_str(&mut twice, "xx");
    twice.reset("dog".to_string());
    twice.reset("dog".to_string());
    let a = once.process_input('d');
    let b = twice.process_input('d');
    assert_eq!(a, b);
    assert_eq!(once.session.input_history, twice.session.input_history);
    assert_eq!(once.session.errors, twice.session.errors);
}

#[test]
fn exact_typing_is_perfect() {
    let text = "the quick brown fox";
    let mut e = engine_at(text);
    let last = *type_str(&mut e, text).last().unwrap();
    assert_eq!(last.errors, 0);
    assert_eq!(value(last.accuracy), 100.0);
}

#[test]
fn exact_typing_unicode() {
    let text = "héllo wörld ✓";
    let mut e = engine_at(text);
    let last = *type_str(&mut e, text).last().unwrap();
    assert_eq!(last.errors, 0);
    assert_eq!(last.keystrokes, 13);
}

#[test]
fn each_mismatch_adds_one_error() {
    let mut e = engine_at("aaaa");
    for (i, s) in type_str(&mut e, "bbbb").iter().enumerate() {
        assert_eq!(s.errors as usize, i + 1);
        assert!(value(s.accuracy) < 100.0);
    }
}

#[test]
fn keystrokes_past_target_are_not_judged() {
    let mut e = engine_at("ab");
    let last = *type_str(&mut e, "abxyz").last().unwrap();
    assert_eq!(last.keystrokes, 5);
    assert_eq!(last.errors, 0);
    assert_eq!(value(last.accuracy), 100.0);
}

#[test]
fn first_keystroke_reports_zero_speed() {
    let mut e = engine_at("abc");
    let s = e.process_input('a');
    assert_eq!(s.elapsed_nanos, 0);
    assert_eq!(value(s.wpm), 0.0);
    assert_eq!(value(s.raw_wpm), 0.0);
    assert!(e.session.start_time.is_some());
}

#[test]
fn later_keystrokes_follow_the_formulas() {
    let mut e = engine_at("abc");
    e.process_input('a');
    let s = e.process_input('x');
    assert_eq!(s, snapshot(2, 1, s.elapsed_nanos));
}

#[test]
fn before_any_reset_target_is_empty() {
    let mut e = EngineState::new();
    assert!(e.session.target_text.is_empty());
    let s = e.process_input('q');
    assert_eq!(s.errors, 0);
    assert_eq!(s.keystrokes, 1);
}

#[test]
fn snapshot_one_minute() {
    // ten characters with one error over one minute: 2 gross words, 1 net word
    let s = snapshot(10, 1, 60_000_000_000);
    assert_eq!(value(s.raw_wpm), 2.0);
    assert_eq!(value(s.wpm), 1.0);
    assert_eq!(value(s.accuracy), 90.0);
    assert_eq!(value(s.consistency), 1.0);
}

#[test]
fn snapshot_half_minute() {
    let s = snapshot(50, 0, 30_000_000_000);
    assert_eq!(value(s.raw_wpm), 20.0);
    assert_eq!(value(s.wpm), 20.0);
    assert_eq!(value(s.accuracy), 100.0);
}

#[test]
fn snapshot_net_speed_clamps_at_zero() {
    let s = snapshot(4, 3, 60_000_000_000);
    assert_eq!(value(s.raw_wpm), 0.8);
    assert_eq!(s.wpm.num, 0);
    assert_eq!(value(s.wpm), 0.0);
    assert_eq!(value(s.accuracy), 25.0);
}

#[test]
fn snapshot_zero_elapsed_and_no_keystrokes() {
    let s = snapshot(0, 0, 0);
    assert_eq!(value(s.wpm), 0.0);
    assert_eq!(value(s.raw_wpm), 0.0);
    assert_eq!(value(s.accuracy), 100.0);
}

#[test]
fn snapshot_largest_counts() {
    let s = snapshot(u32::MAX, u32::MAX, 1);
    assert_eq!(s.raw_wpm.num, u32::MAX as u128 * 12_000_000_000);
    assert_eq!(s.wpm.num, 0);
    assert_eq!(value(s.accuracy), 0.0);
}
