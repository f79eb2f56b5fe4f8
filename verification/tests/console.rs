use tweetlog::{console_line, format_line, LogLevel};

#[test]
fn untagged_line_is_marked_global() {
    assert_eq!(
        console_line(LogLevel::Warning, None, "disk is filling up"),
        "(global)[w]  disk is filling up"
    );
}

#[test]
fn tagged_line_shows_the_tag_in_quotes() {
    assert_eq!(
        console_line(LogLevel::Info, Some("net"), "link up"),
        "(\"net\")[i]  link up"
    );
}

#[test]
fn tag_is_escaped_and_text_is_not() {
    assert_eq!(
        console_line(LogLevel::Error, Some("a\"b\n"), "x\"y\tz"),
        "(\"a\\\"b\\n\")[e]  x\"y\tz"
    );
}

#[test]
fn default_name_given_as_a_tag_is_not_global() {
    assert_eq!(
        console_line(LogLevel::Trace, Some("_"), ""),
        "(\"_\")[t]  "
    );
}

#[test]
fn every_severity_shows_its_letter() {
    assert_eq!(console_line(LogLevel::Trace, None, "m"), "(global)[t]  m");
    assert_eq!(console_line(LogLevel::Debug, None, "m"), "(global)[d]  m");
    assert_eq!(console_line(LogLevel::Info, None, "m"), "(global)[i]  m");
    assert_eq!(console_line(LogLevel::Warning, None, "m"), "(global)[w]  m");
    assert_eq!(console_line(LogLevel::Error, None, "m"), "(global)[e]  m");
}

#[test]
fn format_line_takes_the_origin_as_given() {
    assert_eq!(
        format_line(LogLevel::Debug, Some("net"), "plain"),
        "(net)[d]  plain"
    );
    assert_eq!(format_line(LogLevel::Debug, Some(""), ""), "()[d]  ");
    assert_eq!(format_line(LogLevel::Debug, None, "plain"), "(global)[d]  plain");
}
