//! The structured logger: appending, nesting and the saturating indent.

use tweak_engine::logger::{EntryView, GroupBody, LogEntry, LogLevel, Logger};
use vstd::prelude::Seq;

struct OneEntry;

impl GroupBody for OneEntry {
    fn appended(&self, _indent: u8) -> Seq<EntryView> {
        unreachable!()
    }
    fn run(&self, logger: &mut Logger) {
        logger.info("inside");
    }
}

/// A body that steps out one extra time; the indent must never go
/// negative, and at depth zero the group still ends back at zero.
struct RogueBody;

impl GroupBody for RogueBody {
    fn appended(&self, _indent: u8) -> Seq<EntryView> {
        unreachable!()
    }
    fn run(&self, logger: &mut Logger) {
        logger.info("inside");
        logger.outdent();
    }
}

fn messages(logs: &[LogEntry]) -> Vec<(&str, u8)> {
    logs.iter().map(|e| (e.message.as_str(), e.indent)).collect()
}

#[test]
fn entries_keep_append_order_and_levels() {
    let mut logger = Logger::new();
    logger.info("one");
    logger.warn("two");
    logger.error("three");
    logger.success("four");
    logger.section("five");
    let logs = logger.into_logs();
    assert_eq!(logs.len(), 5);
    assert_eq!(logs[0].level, LogLevel::Info);
    assert_eq!(logs[1].level, LogLevel::Warn);
    assert_eq!(logs[2].level, LogLevel::Error);
    assert_eq!(logs[3].level, LogLevel::Success);
    assert_eq!(logs[4].level, LogLevel::Info);
    assert_eq!(
        messages(&logs),
        vec![("one", 0), ("two", 0), ("three", 0), ("four", 0), ("five", 0)]
    );
}

#[test]
fn kv_carries_the_value_as_detail() {
    let mut logger = Logger::new();
    logger.kv("speed", "42".to_string());
    let logs = logger.into_logs();
    assert_eq!(logs[0].level, LogLevel::Info);
    assert_eq!(logs[0].message, "speed");
    assert_eq!(logs[0].detail, Some("42".to_string()));
}

#[test]
fn group_indents_its_body_and_restores_the_depth() {
    let mut logger = Logger::new();
    logger.info("before");
    logger.group("X", &OneEntry);
    logger.info("after");
    let logs = logger.into_logs();
    assert_eq!(
        messages(&logs),
        vec![("before", 0), ("X", 0), ("inside", 1), ("after", 0)]
    );
}

#[test]
fn group_survives_an_extra_outdent_in_its_body() {
    let mut logger = Logger::new();
    logger.group("X", &RogueBody);
    logger.info("after");
    let logs = logger.into_logs();
    // the body's entry sat one level below the section, and the depth
    // came back to the pre-call value instead of going negative
    assert_eq!(messages(&logs), vec![("X", 0), ("inside", 1), ("after", 0)]);
}

#[test]
fn nested_groups_stack_their_depths() {
    struct Outer;
    struct Inner;
    impl GroupBody for Inner {
        fn appended(&self, _indent: u8) -> Seq<EntryView> {
            unreachable!()
        }
        fn run(&self, logger: &mut Logger) {
            logger.info("deep");
        }
    }
    impl GroupBody for Outer {
        fn appended(&self, _indent: u8) -> Seq<EntryView> {
            unreachable!()
        }
        fn run(&self, logger: &mut Logger) {
            logger.group("inner", &Inner);
        }
    }
    let mut logger = Logger::new();
    logger.group("outer", &Outer);
    let logs = logger.into_logs();
    assert_eq!(messages(&logs), vec![("outer", 0), ("inner", 1), ("deep", 2)]);
}

#[test]
fn outdent_saturates_at_zero() {
    let mut logger = Logger::new();
    logger.outdent();
    logger.outdent();
    logger.info("still at zero");
    let logs = logger.into_logs();
    assert_eq!(logs[0].indent, 0);
}

#[test]
fn indent_applies_to_subsequent_entries_only() {
    let mut logger = Logger::new();
    logger.info("flat");
    logger.indent();
    logger.info("nested");
    logger.outdent();
    logger.info("flat again");
    let logs = logger.into_logs();
    assert_eq!(
        messages(&logs),
        vec![("flat", 0), ("nested", 1), ("flat again", 0)]
    );
}
