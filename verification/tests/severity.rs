use std::cmp::Ordering;
use tweetlog::{LogError, LogLevel};

const LEVELS: [LogLevel; 5] = [
    LogLevel::Trace,
    LogLevel::Debug,
    LogLevel::Info,
    LogLevel::Warning,
    LogLevel::Error,
];

#[test]
fn codes_are_the_five_letters() {
    assert_eq!(LogLevel::to_char(&LogLevel::Trace), 't');
    assert_eq!(LogLevel::to_char(&LogLevel::Debug), 'd');
    assert_eq!(LogLevel::to_char(&LogLevel::Info), 'i');
    assert_eq!(LogLevel::to_char(&LogLevel::Warning), 'w');
    assert_eq!(LogLevel::to_char(&LogLevel::Error), 'e');
}

#[test]
fn as_char_agrees_with_to_char() {
    for level in LEVELS {
        assert_eq!(level.as_char(), LogLevel::to_char(&level));
    }
}

#[test]
fn from_code_reads_the_five_letters() {
    assert_eq!(LogLevel::from_code('t'), Ok(LogLevel::Trace));
    assert_eq!(LogLevel::from_code('d'), Ok(LogLevel::Debug));
    assert_eq!(LogLevel::from_code('i'), Ok(LogLevel::Info));
    assert_eq!(LogLevel::from_code('w'), Ok(LogLevel::Warning));
    assert_eq!(LogLevel::from_code('e'), Ok(LogLevel::Error));
}

#[test]
fn code_round_trip() {
    for level in LEVELS {
        assert_eq!(LogLevel::from_code(level.as_char()), Ok(level));
    }
}

#[test]
fn from_code_refuses_any_other_character() {
    for c in ['x', 'T', 'E', ' ', '_', '1', '\n', 'é'] {
        assert_eq!(
            LogLevel::from_code(c),
            Err(LogError::InvalidSeverityCode(c))
        );
    }
}

#[test]
fn from_code_accepts_exactly_five_characters() {
    let mut accepted = 0;
    for c in '\0'..='\u{ff}' {
        if LogLevel::from_code(c).is_ok() {
            accepted += 1;
        }
    }
    assert_eq!(accepted, 5);
}

#[test]
fn ordinals_rise_from_one_to_five() {
    assert_eq!(LogLevel::Trace.ordinal(), 1);
    assert_eq!(LogLevel::Debug.ordinal(), 2);
    assert_eq!(LogLevel::Info.ordinal(), 3);
    assert_eq!(LogLevel::Warning.ordinal(), 4);
    assert_eq!(LogLevel::Error.ordinal(), 5);
}

#[test]
fn compare_goes_by_the_order_of_severity() {
    for (i, a) in LEVELS.iter().enumerate() {
        for (j, b) in LEVELS.iter().enumerate() {
            assert_eq!(a.compare(b), i.cmp(&j));
        }
    }
    assert_eq!(LogLevel::Trace.compare(&LogLevel::Error), Ordering::Less);
    assert_eq!(LogLevel::Info.compare(&LogLevel::Info), Ordering::Equal);
    assert_eq!(LogLevel::Warning.compare(&LogLevel::Debug), Ordering::Greater);
}

#[test]
fn lets_through_is_an_inclusive_minimum() {
    for (i, threshold) in LEVELS.iter().enumerate() {
        for (j, level) in LEVELS.iter().enumerate() {
            assert_eq!(threshold.lets_through(level), i <= j);
        }
    }
    assert!(LogLevel::Warning.lets_through(&LogLevel::Warning));
    assert!(!LogLevel::Warning.lets_through(&LogLevel::Info));
}
