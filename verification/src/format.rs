//! Rendering an accepted record as its output line: a five-character,
//! colour-coded severity tag, a trimmed source location and the message.

use vstd::prelude::*;

use crate::policy::component_of;
use crate::policy::component_segment;
use crate::severity::Severity;
use crate::strip::strip_src;
use crate::strip::strip_src_spec;
use crate::style::{paint, painted, Color};

verus! {

/// The label of a severity, upper case, padded on the right to the fixed
/// width of five characters.
pub open spec fn padded_label(s: Severity) -> Seq<char> {
    match s {
        Severity::Trace => "TRACE"@,
        Severity::Debug => "DEBUG"@,
        Severity::Info => "INFO "@,
        Severity::Warn => "WARN "@,
        Severity::Error => "ERROR"@,
    }
}

/// The colour a severity is shown in: green for the least severe, yellow and
/// red for the two most severe, none for the middle ones; all of them bold.
pub open spec fn severity_color(s: Severity) -> Color {
    match s {
        Severity::Trace => Color::Green,
        Severity::Debug => Color::Plain,
        Severity::Info => Color::Plain,
        Severity::Warn => Color::Yellow,
        Severity::Error => Color::Red,
    }
}

/// Executable form of `severity_color`.
pub fn color_of(s: Severity) -> (c: Color)
    ensures
        c == severity_color(s),
{
    match s {
        Severity::Trace => Color::Green,
        Severity::Debug => Color::Plain,
        Severity::Info => Color::Plain,
        Severity::Warn => Color::Yellow,
        Severity::Error => Color::Red,
    }
}

/// The severity tag of a line: the padded label under the severity's colour.
pub open spec fn level_tag(s: Severity, color_on: bool) -> Seq<char> {
    painted(color_on, severity_color(s), padded_label(s))
}

/// Renders the severity tag of a line.
pub fn format_level(s: Severity, color_on: bool) -> (r: String)
    ensures
        r@ == level_tag(s, color_on),
{
    let label: &str = match s {
        Severity::Trace => "TRACE",
        Severity::Debug => "DEBUG",
        Severity::Info => "INFO ",
        Severity::Warn => "WARN ",
        Severity::Error => "ERROR",
    };
    paint(color_on, color_of(s), label)
}

/// The decimal digit standing for `d`.
pub open spec fn dec_digit(d: int) -> char {
    if d == 0 {
        '0'
    } else if d == 1 {
        '1'
    } else if d == 2 {
        '2'
    } else if d == 3 {
        '3'
    } else if d == 4 {
        '4'
    } else if d == 5 {
        '5'
    } else if d == 6 {
        '6'
    } else if d == 7 {
        '7'
    } else if d == 8 {
        '8'
    } else {
        '9'
    }
}

/// The decimal rendering of `n`, without a sign and without leading zeros
/// except for `n == 0` itself.
pub open spec fn dec_seq(n: int) -> Seq<char>
    decreases n,
{
    if n < 10 {
        seq![dec_digit(n)]
    } else {
        dec_seq(n / 10) + seq![dec_digit(n % 10)]
    }
}

/// The one-character string of a decimal digit.
fn digit_str(d: u32) -> (r: &'static str)
    requires
        d < 10,
    ensures
        r@ == seq![dec_digit(d as int)],
{
    proof {
        reveal_strlit("0");
        reveal_strlit("1");
        reveal_strlit("2");
        reveal_strlit("3");
        reveal_strlit("4");
        reveal_strlit("5");
        reveal_strlit("6");
        reveal_strlit("7");
        reveal_strlit("8");
        reveal_strlit("9");
    }
    let r: &str = if d == 0 {
        "0"
    } else if d == 1 {
        "1"
    } else if d == 2 {
        "2"
    } else if d == 3 {
        "3"
    } else if d == 4 {
        "4"
    } else if d == 5 {
        "5"
    } else if d == 6 {
        "6"
    } else if d == 7 {
        "7"
    } else if d == 8 {
        "8"
    } else {
        "9"
    };
    proof {
        assert(r@ =~= seq![dec_digit(d as int)]);
    }
    r
}

/// Renders `n` in decimal.
pub fn u32_decimal(n: u32) -> (r: String)
    ensures
        r@ == dec_seq(n as int),
    decreases n,
{
    if n < 10 {
        String::from_str(digit_str(n))
    } else {
        let mut s = u32_decimal(n / 10);
        s.append(digit_str(n % 10));
        s
    }
}

/// The view of an optional string slice.
pub open spec fn opt_view(s: Option<&str>) -> Option<Seq<char>> {
    match s {
        Some(x) => Some(x@),
        None => None,
    }
}

/// The rendered location of a record: its component, the originating file and
/// line, each under its own colour — or nothing when file or line is missing.
pub open spec fn location_spec(
    target: Seq<char>,
    file: Option<Seq<char>>,
    line: Option<u32>,
    color_on: bool,
) -> Seq<char> {
    match (file, line) {
        (Some(f), Some(l)) => painted(color_on, Color::Cyan, component_of(target)) + " "@ + painted(
            color_on,
            Color::Blue,
            f,
        ) + painted(color_on, Color::Plain, ":"@) + painted(
            color_on,
            Color::Magenta,
            dec_seq(l as int),
        ),
        _ => Seq::empty(),
    }
}

/// Renders the location of a record under `location_spec`.
pub fn render_location(target: &str, file: Option<&str>, line: Option<u32>, color_on: bool) -> (r:
    String)
    ensures
        r@ == location_spec(target@, opt_view(file), line, color_on),
{
    match (file, line) {
        (Some(f), Some(l)) => {
            let mut out = paint(color_on, Color::Cyan, component_segment(target));
            out.append(" ");
            let file_part = paint(color_on, Color::Blue, f);
            out.append(file_part.as_str());
            let colon_part = paint(color_on, Color::Plain, ":");
            out.append(colon_part.as_str());
            let digits = u32_decimal(l);
            let line_part = paint(color_on, Color::Magenta, digits.as_str());
            out.append(line_part.as_str());
            proof {
                assert(out@ =~= location_spec(target@, opt_view(file), line, color_on));
            }
            out
        },
        _ => String::new(),
    }
}

/// The full output line of a record: the bracketed severity tag, the trimmed
/// location, the literal separator, and the message unchanged.
pub open spec fn format_line_spec(
    target: Seq<char>,
    sev: Severity,
    file: Option<Seq<char>>,
    line: Option<u32>,
    msg: Seq<char>,
    color_on: bool,
) -> Seq<char> {
    "["@ + level_tag(sev, color_on) + "] "@ + strip_src_spec(
        location_spec(target, file, line, color_on),
    ) + ": "@ + msg
}

/// Renders the output line of a record under `format_line_spec`. The result
/// is a function of the record and the colour choice alone: rendering the
/// same record twice yields identical lines.
pub fn format_record(
    target: &str,
    severity: Severity,
    file: Option<&str>,
    line: Option<u32>,
    message: &str,
    color_on: bool,
) -> (r: String)
    ensures
        r@ == format_line_spec(target@, severity, opt_view(file), line, message@, color_on),
{
    let location = render_location(target, file, line, color_on);
    let trimmed = strip_src(location.as_str());
    let mut out = String::from_str("[");
    let tag = format_level(severity, color_on);
    out.append(tag.as_str());
    out.append("] ");
    out.append(trimmed);
    out.append(": ");
    out.append(message);
    proof {
        assert(out@ =~= format_line_spec(
            target@,
            severity,
            opt_view(file),
            line,
            message@,
            color_on,
        ));
    }
    out
}

/// A record that misses its file or its line renders an empty location, and
/// its output line still holds the literal ": " separator directly before the
/// unchanged message.
pub proof fn lemma_missing_location(
    target: Seq<char>,
    sev: Severity,
    file: Option<Seq<char>>,
    line: Option<u32>,
    msg: Seq<char>,
    color_on: bool,
)
    requires
        file is None || line is None,
    ensures
        location_spec(target, file, line, color_on) == Seq::<char>::empty(),
        format_line_spec(target, sev, file, line, msg, color_on) == "["@ + level_tag(
            sev,
            color_on,
        ) + "] "@ + ": "@ + msg,
{
    reveal_strlit("src/");
    crate::strip::lemma_strip_no_marker(Seq::empty());
    assert(location_spec(target, file, line, color_on) =~= Seq::<char>::empty());
    assert(format_line_spec(target, sev, file, line, msg, color_on) =~= "["@ + level_tag(
        sev,
        color_on,
    ) + "] "@ + ": "@ + msg);
}

/// Rendering is deterministic: two lines rendered from one and the same
/// record, under one colour choice, are identical byte for byte.
pub proof fn lemma_format_deterministic(
    r1: Seq<char>,
    r2: Seq<char>,
    target: Seq<char>,
    sev: Severity,
    file: Option<Seq<char>>,
    line: Option<u32>,
    msg: Seq<char>,
    color_on: bool,
)
    requires
        r1 == format_line_spec(target, sev, file, line, msg, color_on),
        r2 == format_line_spec(target, sev, file, line, msg, color_on),
    ensures
        r1 == r2,
{
}

} // verus!
