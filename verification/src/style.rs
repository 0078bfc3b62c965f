//! Terminal styling: wrapping a piece of text in bold, colour-coded ANSI
//! codes, or leaving it untouched for a sink that takes no colour.

use vstd::prelude::*;

verus! {

/// The colours the formatter uses; `Plain` is bold with no colour.
#[derive(Clone, Copy, PartialEq, Eq, Structural, Debug)]
pub enum Color {
    Plain,
    Green,
    Yellow,
    Red,
    Cyan,
    Blue,
    Magenta,
}

/// The ANSI code sequence that opens bold text of the given colour.
pub open spec fn style_prefix(c: Color) -> Seq<char> {
    match c {
        Color::Plain => "\u{1b}[1m"@,
        Color::Green => "\u{1b}[1;32m"@,
        Color::Yellow => "\u{1b}[1;33m"@,
        Color::Red => "\u{1b}[1;31m"@,
        Color::Cyan => "\u{1b}[1;36m"@,
        Color::Blue => "\u{1b}[1;34m"@,
        Color::Magenta => "\u{1b}[1;35m"@,
    }
}

/// The ANSI code sequence that closes any styled text.
pub open spec fn style_reset() -> Seq<char> {
    "\u{1b}[0m"@
}

/// `s` wrapped in bold text of colour `c`.
pub open spec fn styled(c: Color, s: Seq<char>) -> Seq<char> {
    style_prefix(c) + s + style_reset()
}

/// `s` styled when the sink takes colour, untouched otherwise. Styling is
/// presentation only: the text itself stands unchanged between the codes.
pub open spec fn painted(color_on: bool, c: Color, s: Seq<char>) -> Seq<char> {
    if color_on {
        styled(c, s)
    } else {
        s
    }
}

/// Renders `s` under `painted`: wrapped in ANSI codes exactly when
/// `color_on` holds.
pub fn paint(color_on: bool, c: Color, s: &str) -> (r: String)
    ensures
        r@ == painted(color_on, c, s@),
{
    if !color_on {
        return s.to_owned();
    }
    let prefix: &str = match c {
        Color::Plain => "\u{1b}[1m",
        Color::Green => "\u{1b}[1;32m",
        Color::Yellow => "\u{1b}[1;33m",
        Color::Red => "\u{1b}[1;31m",
        Color::Cyan => "\u{1b}[1;36m",
        Color::Blue => "\u{1b}[1;34m",
        Color::Magenta => "\u{1b}[1;35m",
    };
    let mut out = String::from_str(prefix);
    out.append(s);
    out.append("\u{1b}[0m");
    proof {
        assert(out@ =~= painted(color_on, c, s@));
    }
    out
}

} // verus!
