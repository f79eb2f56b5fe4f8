use crate::level::LogLevel;
use vstd::prelude::*;
use vstd::string::StringExecFns;

verus! {

/// A tag as `std` writes a string slice for debugging: between double quotes,
/// with the characters that need it escaped.
pub uninterp spec fn debug_form(tag: Seq<char>) -> Seq<char>;

/// The line for one message. `origin` is what stands for the tag, already in
/// the form in which it is shown; without one the message is marked as
/// global. Then come the severity's letter in square brackets, two spaces,
/// and the text as it is.
pub open spec fn line_of(level: LogLevel, origin: Option<Seq<char>>, msg: Seq<char>) -> Seq<char> {
    let head = match origin {
        None => seq!['(', 'g', 'l', 'o', 'b', 'a', 'l', ')'],
        Some(shown) => seq!['('] + shown + seq![')'],
    };
    head + seq!['[', level.code(), ']', ' ', ' '] + msg
}

/// What is known of a tag's debug form without reading it: it begins and
/// ends with a double quote, and between the two no character of the tag is
/// left out, so that it is longer than the tag by two characters at least.
pub open spec fn in_quotes(tag: Seq<char>, shown: Seq<char>) -> bool {
    &&& shown.len() >= tag.len() + 2
    &&& shown.first() == '"'
    &&& shown.last() == '"'
}

/// Calls `format!("{:?}", tag)`, that is `std`'s `Debug` for `str`. Nothing
/// is proved of it. The contract gives the result its name, which says that
/// the same tag is always written the same way, and claims that `std` writes
/// a double quote, then each character of the tag as itself or as an escape
/// of one character or more, then a double quote.
#[verifier::external_body]
fn quote(tag: &str) -> (quoted: String)
    ensures
        quoted@ == debug_form(tag@),
        in_quotes(tag@, quoted@),
{
    format!("{:?}", tag)
}

/// The severity's letter as a string of one character.
fn letter(level: LogLevel) -> (s: &'static str)
    ensures
        s@ == seq![level.code()],
{
    proof {
        reveal_strlit("t");
        reveal_strlit("d");
        reveal_strlit("i");
        reveal_strlit("w");
        reveal_strlit("e");
    }
    let s = match level {
        LogLevel::Trace => "t",
        LogLevel::Debug => "d",
        LogLevel::Info => "i",
        LogLevel::Warning => "w",
        LogLevel::Error => "e",
    };
    assert(s@ =~= seq![level.code()]);
    s
}

/// Composes the line for one message from the severity, the tag in the form
/// in which it is to be shown (if there is one), and the text.
pub fn format_line(level: LogLevel, origin: Option<&str>, msg: &str) -> (line: String)
    ensures
        line@ == line_of(
            level,
            match origin {
                Some(shown) => Some(shown@),
                None => None,
            },
            msg@,
        ),
{
    proof {
        reveal_strlit("(global)");
        reveal_strlit("(");
        reveal_strlit(")");
        reveal_strlit("[");
        reveal_strlit("]  ");
    }
    let mut line = String::new();
    match origin {
        None => {
            line.append("(global)");
            assert(line@ =~= seq!['(', 'g', 'l', 'o', 'b', 'a', 'l', ')']);
        },
        Some(shown) => {
            line.append("(");
            line.append(shown);
            line.append(")");
            assert(line@ =~= seq!['('] + shown@ + seq![')']);
        },
    }
    let ghost head = line@;
    line.append("[");
    line.append(letter(level));
    line.append("]  ");
    assert(line@ =~= head + seq!['[', level.code(), ']', ' ', ' ']);
    line.append(msg);
    line
}

/// The line that the console listener prints for one message: a message
/// without a tag is marked as global, a tag is shown in its debug form. The
/// line of a message with a tag is never the line of a message without one.
pub fn console_line(level: LogLevel, maybe_tag: Option<&str>, msg: &str) -> (line: String)
    ensures
        line@ == line_of(
            level,
            match maybe_tag {
                Some(tag) => Some(debug_form(tag@)),
                None => None,
            },
            msg@,
        ),
        match maybe_tag {
            Some(tag) => in_quotes(tag@, debug_form(tag@)) && !is_global_line(line@),
            None => is_global_line(line@),
        },
{
    match maybe_tag {
        None => {
            proof {
                lemma_lines_tell_global_from_tagged(level, None, msg@);
            }
            format_line(level, None, msg)
        },
        Some(tag) => {
            let quoted = quote(tag);
            proof {
                lemma_lines_tell_global_from_tagged(level, Some(quoted@), msg@);
            }
            format_line(level, Some(quoted.as_str()), msg)
        },
    }
}

/// Whether a line is that of a message without a tag: it begins with
/// `(global)[`.
pub open spec fn is_global_line(line: Seq<char>) -> bool {
    let mark = seq!['(', 'g', 'l', 'o', 'b', 'a', 'l', ')', '['];
    mark.is_prefix_of(line)
}

/// The line of a message without a tag begins with `(global)[`; the line of
/// a message whose tag is shown between double quotes does not, whatever the
/// severity and the text. So the two kinds of line can be told apart.
pub proof fn lemma_lines_tell_global_from_tagged(
    level: LogLevel,
    origin: Option<Seq<char>>,
    msg: Seq<char>,
)
    requires
        origin matches Some(shown) ==> shown.len() > 0 && shown.first() == '"',
    ensures
        is_global_line(line_of(level, origin, msg)) <==> origin is None,
{
    let line = line_of(level, origin, msg);
    let mark = seq!['(', 'g', 'l', 'o', 'b', 'a', 'l', ')', '['];
    match origin {
        None => {
            assert(line.len() >= 9);
            assert(line.subrange(0, 9) =~= mark);
        },
        Some(shown) => {
            assert(line[1] == '"');
            if mark.is_prefix_of(line) {
                assert(line[1] == mark[1]);
            }
        },
    }
}

} // verus!
