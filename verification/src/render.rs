//! Deterministic rendering of one log record into one text line.
//!
//! The line format is a stable contract to humans and log scrapers:
//! `HH:MM:SS<color> <thread-label> [<three-letter-tag>]<reset> <message>`
//! terminated by a single newline. `spec_line` is the authoritative
//! statement of that format; `render_record` produces exactly it.

use vstd::prelude::*;
use vstd::string::StringExecFns;
use chrono::Timelike;
use crate::level::{Level, spec_color, spec_tag};

verus! {

/// Relies on `chrono::Utc::now` and `chrono::Timelike::{hour, minute,
/// second}`: the current UTC wall-clock time of day. The clock decides
/// the value, so only what holds of every outcome is stated: chrono
/// documents `hour` as below 24 and `minute` and `second` as below 60
/// (a leap second is carried in the nanosecond field, not here).
#[verifier::external_body]
pub fn now_hms() -> (r: (u8, u8, u8))
    ensures
        r.0 < 24,
        r.1 < 60,
        r.2 < 60,
{
    let t = chrono::Utc::now();
    (t.hour() as u8, t.minute() as u8, t.second() as u8)
}

/// The decimal digit character of a value below ten.
pub open spec fn spec_digit(d: int) -> char {
    if d == 0 {
        '0'
    } else if d == 1 {
        '1'
    } else if d == 2 {
        '2'
    } else if d == 3 {
        '3'
    } else if d == 4 {
        '4'
    } else if d == 5 {
        '5'
    } else if d == 6 {
        '6'
    } else if d == 7 {
        '7'
    } else if d == 8 {
        '8'
    } else {
        '9'
    }
}

/// A value below one hundred, zero-padded to exactly two decimal digits.
pub open spec fn spec_two_digits(n: int) -> Seq<char> {
    seq![spec_digit(n / 10), spec_digit(n % 10)]
}

/// The `HH:MM:SS` clock field of a line: three zero-padded two-digit
/// fields joined by colons, second precision, no date and no zone.
pub open spec fn spec_clock(h: int, m: int, s: int) -> Seq<char> {
    spec_two_digits(h) + ":"@ + spec_two_digits(m) + ":"@ + spec_two_digits(s)
}

/// The label identifying the calling thread: its name when it has one,
/// the fixed fallback otherwise. Names are used whole; no truncation.
pub open spec fn spec_label(name: Option<&str>) -> Seq<char> {
    match name {
        Option::Some(n) => n@,
        Option::None => "unknown"@,
    }
}

/// The ANSI escape that returns the terminal to its default color.
pub open spec fn spec_reset() -> Seq<char> {
    "\x1B[0m"@
}

/// One complete rendered line, newline included.
pub open spec fn spec_line(
    level: Level,
    label: Seq<char>,
    h: int,
    m: int,
    s: int,
    msg: Seq<char>,
) -> Seq<char> {
    spec_clock(h, m, s) + spec_color(level) + " "@ + label + " ["@ + spec_tag(level) + "]"@
        + spec_reset() + " "@ + msg + "\n"@
}

/// The single character of a decimal digit below ten.
fn digit_str(d: u8) -> (r: &'static str)
    requires
        d < 10,
    ensures
        r@ == seq![spec_digit(d as int)],
{
    match d {
        0 => {
            proof {
                reveal_strlit("0");
                assert("0"@ =~= seq![spec_digit(0)]);
            }
            "0"
        },
        1 => {
            proof {
                reveal_strlit("1");
                assert("1"@ =~= seq![spec_digit(1)]);
            }
            "1"
        },
        2 => {
            proof {
                reveal_strlit("2");
                assert("2"@ =~= seq![spec_digit(2)]);
            }
            "2"
        },
        3 => {
            proof {
                reveal_strlit("3");
                assert("3"@ =~= seq![spec_digit(3)]);
            }
            "3"
        },
        4 => {
            proof {
                reveal_strlit("4");
                assert("4"@ =~= seq![spec_digit(4)]);
            }
            "4"
        },
        5 => {
            proof {
                reveal_strlit("5");
                assert("5"@ =~= seq![spec_digit(5)]);
            }
            "5"
        },
        6 => {
            proof {
                reveal_strlit("6");
                assert("6"@ =~= seq![spec_digit(6)]);
            }
            "6"
        },
        7 => {
            proof {
                reveal_strlit("7");
                assert("7"@ =~= seq![spec_digit(7)]);
            }
            "7"
        },
        8 => {
            proof {
                reveal_strlit("8");
                assert("8"@ =~= seq![spec_digit(8)]);
            }
            "8"
        },
        _ => {
            proof {
                reveal_strlit("9");
                assert("9"@ =~= seq![spec_digit(9)]);
            }
            "9"
        },
    }
}

/// A value below one hundred as exactly two zero-padded decimal digits.
fn two_digits(n: u8) -> (r: String)
    requires
        n < 100,
    ensures
        r@ == spec_two_digits(n as int),
{
    let tens: u8 = n / 10;
    let ones: u8 = n % 10;
    let mut r = digit_str(tens).to_owned();
    r.append(digit_str(ones));
    proof {
        assert(r@ =~= spec_two_digits(n as int));
    }
    r
}

/// The `HH:MM:SS` clock field for a time of day.
fn clock_text(h: u8, m: u8, s: u8) -> (r: String)
    requires
        h < 24,
        m < 60,
        s < 60,
    ensures
        r@ == spec_clock(h as int, m as int, s as int),
{
    let mut r = two_digits(h);
    r.append(":");
    let mm = two_digits(m);
    r.append(mm.as_str());
    r.append(":");
    let ss = two_digits(s);
    r.append(ss.as_str());
    proof {
        assert(r@ =~= spec_clock(h as int, m as int, s as int));
    }
    r
}

/// The thread label of a line: the thread's name when it has one, the
/// fixed fallback text otherwise.
pub fn thread_label(name: Option<&str>) -> (r: String)
    ensures
        r@ == spec_label(name),
{
    match name {
        Option::Some(n) => n.to_owned(),
        Option::None => "unknown".to_owned(),
    }
}

/// Renders one record into its complete line: clock field, color escape,
/// thread label, bracketed severity tag, color reset, message, newline.
pub fn render_record(
    level: Level,
    thread_name: Option<&str>,
    h: u8,
    m: u8,
    s: u8,
    message: &str,
) -> (r: String)
    requires
        h < 24,
        m < 60,
        s < 60,
    ensures
        r@ == spec_line(level, spec_label(thread_name), h as int, m as int, s as int, message@),
{
    let mut r = clock_text(h, m, s);
    r.append(level.color());
    r.append(" ");
    let label = thread_label(thread_name);
    r.append(label.as_str());
    r.append(" [");
    r.append(level.tag());
    r.append("]");
    r.append("\x1B[0m");
    r.append(" ");
    r.append(message);
    r.append("\n");
    proof {
        assert(r@ =~= spec_line(
            level,
            spec_label(thread_name),
            h as int,
            m as int,
            s as int,
            message@,
        ));
    }
    r
}

/// Whether a piece of text contains no line terminator.
pub open spec fn no_newline(s: Seq<char>) -> bool {
    forall|i: int| 0 <= i < s.len() ==> s[i] != '\n'
}

proof fn lemma_concat_keeps_no_newline(a: Seq<char>, b: Seq<char>)
    requires
        no_newline(a),
        no_newline(b),
    ensures
        no_newline(a + b),
{
    assert forall|i: int| 0 <= i < (a + b).len() implies (a + b)[i] != '\n' by {
        if i < a.len() {
            assert((a + b)[i] == a[i]);
        } else {
            assert((a + b)[i] == b[i - a.len()]);
        }
    }
}

/// A rendered line holds no newline before its terminator, as long as
/// the label and the message hold none: together with
/// `lemma_line_newline_terminated`, such a line is exactly one complete,
/// newline-terminated record, never a fragment of two.
pub proof fn lemma_line_single_newline(
    level: Level,
    label: Seq<char>,
    h: int,
    m: int,
    s: int,
    msg: Seq<char>,
)
    requires
        no_newline(label),
        no_newline(msg),
    ensures
        no_newline(spec_line(level, label, h, m, s, msg).drop_last()),
{
    reveal_strlit(":");
    reveal_strlit(" ");
    reveal_strlit(" [");
    reveal_strlit("]");
    reveal_strlit("\x1B[97m");
    reveal_strlit("\x1B[36m");
    reveal_strlit("\x1B[33m");
    reveal_strlit("\x1B[31m");
    reveal_strlit("\x1B[0m");
    reveal_strlit("TRC");
    reveal_strlit("DBG");
    reveal_strlit("INF");
    reveal_strlit("WRN");
    reveal_strlit("ERR");
    reveal_strlit("\n");
    assert(no_newline(spec_two_digits(h)));
    assert(no_newline(spec_two_digits(m)));
    assert(no_newline(spec_two_digits(s)));
    assert(no_newline(":"@));
    assert(no_newline(" "@));
    assert(no_newline(" ["@));
    assert(no_newline("]"@));
    assert(no_newline(spec_color(level)));
    assert(no_newline(spec_tag(level)));
    assert(no_newline(spec_reset()));
    lemma_concat_keeps_no_newline(spec_two_digits(h), ":"@);
    lemma_concat_keeps_no_newline(spec_two_digits(h) + ":"@, spec_two_digits(m));
    lemma_concat_keeps_no_newline(spec_two_digits(h) + ":"@ + spec_two_digits(m), ":"@);
    lemma_concat_keeps_no_newline(
        spec_two_digits(h) + ":"@ + spec_two_digits(m) + ":"@,
        spec_two_digits(s),
    );
    let clock = spec_clock(h, m, s);
    lemma_concat_keeps_no_newline(clock, spec_color(level));
    lemma_concat_keeps_no_newline(clock + spec_color(level), " "@);
    lemma_concat_keeps_no_newline(clock + spec_color(level) + " "@, label);
    lemma_concat_keeps_no_newline(clock + spec_color(level) + " "@ + label, " ["@);
    lemma_concat_keeps_no_newline(
        clock + spec_color(level) + " "@ + label + " ["@,
        spec_tag(level),
    );
    lemma_concat_keeps_no_newline(
        clock + spec_color(level) + " "@ + label + " ["@ + spec_tag(level),
        "]"@,
    );
    lemma_concat_keeps_no_newline(
        clock + spec_color(level) + " "@ + label + " ["@ + spec_tag(level) + "]"@,
        spec_reset(),
    );
    lemma_concat_keeps_no_newline(
        clock + spec_color(level) + " "@ + label + " ["@ + spec_tag(level) + "]"@ + spec_reset(),
        " "@,
    );
    lemma_concat_keeps_no_newline(
        clock + spec_color(level) + " "@ + label + " ["@ + spec_tag(level) + "]"@ + spec_reset()
            + " "@,
        msg,
    );
    let prefix = clock + spec_color(level) + " "@ + label + " ["@ + spec_tag(level) + "]"@
        + spec_reset() + " "@ + msg;
    let line = spec_line(level, label, h, m, s, msg);
    assert(line.drop_last() =~= prefix);
}

/// Every rendered line is one complete record: it is never empty and its
/// last character is the single terminating newline.
pub proof fn lemma_line_newline_terminated(
    level: Level,
    label: Seq<char>,
    h: int,
    m: int,
    s: int,
    msg: Seq<char>,
)
    ensures
        spec_line(level, label, h, m, s, msg).len() > 0,
        spec_line(level, label, h, m, s, msg).last() == '\n',
{
    reveal_strlit("\n");
    let line = spec_line(level, label, h, m, s, msg);
    assert(line.last() == "\n"@[0]);
}

} // verus!
