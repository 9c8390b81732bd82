//! Terminal styles as plain values: a foreground color and a bold flag.
//! Sinks that can actually colorize map these onto their own escape
//! sequences; sinks that cannot simply record or ignore them.

use vstd::prelude::*;

verus! {

/// A terminal foreground color, as a plain closed set of named colors.
#[derive(Clone, Copy, Debug, PartialEq, Eq, Structural)]
pub enum Color {
    Black,
    Blue,
    Green,
    Red,
    Cyan,
    Magenta,
    Yellow,
    White,
}

/// A style a human target may apply to a span of output: an optional
/// foreground color and a bold flag.
#[derive(Clone, Copy, Debug, PartialEq, Eq, Structural)]
pub struct Style {
    pub fg: Option<Color>,
    pub bold: bool,
}

impl Style {
    /// The default style: no color, not bold.
    pub open spec fn spec_plain() -> Style {
        Style { fg: None, bold: false }
    }

    /// The default style: no color, not bold.
    pub fn plain() -> (r: Style)
        ensures
            r == Style::spec_plain(),
    {
        Style { fg: None, bold: false }
    }

    /// A style with the given foreground color and no other decoration.
    pub fn fg(color: Color) -> (r: Style)
        ensures
            r == (Style { fg: Some(color), bold: false }),
    {
        Style { fg: Some(color), bold: false }
    }

    /// This style with the bold flag set.
    pub fn bold(self) -> (r: Style)
        ensures
            r == (Style { bold: true, ..self }),
    {
        Style { bold: true, ..self }
    }
}

impl Default for Style {
    fn default() -> (r: Style)
        ensures
            r == Style::spec_plain(),
    {
        Style::plain()
    }
}

} // verus!
