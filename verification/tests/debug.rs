use std::borrow::Cow;

use toy_engine::debug::{Level, Timing};

const MSG: &str = "timing";

#[test]
fn empty() {
    let t: Timing = Timing::default();
    assert_eq!(t.msg, "TIME!");
}

#[test]
fn fromstr() {
    let t: Timing = Timing::new(MSG);
    assert_eq!(t.msg, MSG);
}

#[test]
fn fromstring() {
    let t: Timing = Timing::new(String::from(MSG));
    assert_eq!(t.msg, MSG);
}

#[test]
fn fromborrowed() {
    let t: Timing = Timing::new(Cow::Borrowed(MSG));
    assert_eq!(t.msg, MSG);
}

#[test]
fn fromowned() {
    let t: Timing = Timing::new(Cow::Owned(String::from(MSG)));
    assert_eq!(t.msg, MSG);
}

#[test]
fn timing_starts_at_trace_level() {
    let t: Timing = Timing::default();
    assert_eq!(t.level, Level::Trace);
    let t: Timing = Timing::new(MSG);
    assert_eq!(t.level, Level::Trace);
}

#[test]
fn timing_logs_its_level() {
    let mut t: Timing = Timing::new(MSG);
    t.level = Level::Warn;
    let entry = t.log();
    assert_eq!(entry.level, Level::Warn);
    assert!(t.elapsed() >= entry.elapsed);
}
