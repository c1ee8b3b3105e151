//! Colours and styles of a character cell.

use vstd::prelude::*;

verus! {

/// The colours the editor paints with.
#[derive(Clone, Copy, Debug, PartialEq, Eq, Structural, Hash)]
pub enum Color {
    /// The terminal's own colour.
    Reset,
    Black,
    White,
}

/// How a text is set within its area.
#[derive(Clone, Copy, Debug, PartialEq, Eq, Structural, Hash)]
pub enum Alignment {
    Left,
    Center,
    Right,
}

/// The attribute for bold letters.
pub const BOLD: u16 = 0x001;

/// The attribute for dim letters.
pub const DIM: u16 = 0x002;

/// The attribute for italic letters.
pub const ITALIC: u16 = 0x004;

/// The attribute for underlined letters.
pub const UNDERLINED: u16 = 0x008;

/// The attribute for slowly blinking letters.
pub const SLOW_BLINK: u16 = 0x010;

/// The attribute for rapidly blinking letters.
pub const RAPID_BLINK: u16 = 0x020;

/// The attribute for letters in the colours of their ground.
pub const REVERSED: u16 = 0x040;

/// The attribute for hidden letters.
pub const HIDDEN: u16 = 0x080;

/// The attribute for letters struck out.
pub const CROSSED_OUT: u16 = 0x100;

/// All attributes together. A bit beyond these is no attribute.
pub const ATTRIBUTES: u16 = 0x1ff;

/// The look of one character. A colour that is `None` leaves the cell's
/// colour as it is; the attributes of `add_modifier` are switched on and
/// those of `sub_modifier` are switched off.
#[derive(Clone, Copy, Debug, PartialEq, Eq, Hash)]
pub struct Style {
    pub fg: Option<Color>,
    pub bg: Option<Color>,
    pub add_modifier: u16,
    pub sub_modifier: u16,
}

impl Style {
    /// The style that changes nothing.
    pub open spec fn spec_plain() -> Style {
        Style { fg: None, bg: None, add_modifier: 0, sub_modifier: 0 }
    }

    /// The look of the cursor: black on white.
    pub open spec fn spec_cursor() -> Style {
        Style { fg: Some(Color::Black), bg: Some(Color::White), add_modifier: 0, sub_modifier: 0 }
    }

    /// The style with the cursor's colours put on it. Its attributes stay.
    pub open spec fn spec_highlighted(self) -> Style {
        Style { fg: Some(Color::Black), bg: Some(Color::White), ..self }
    }

    /// Whether the style has the colours of the cursor.
    pub open spec fn spec_is_cursor(self) -> bool {
        self.fg == Some(Color::Black) && self.bg == Some(Color::White)
    }

    /// The style that changes nothing.
    #[verifier::when_used_as_spec(spec_plain)]
    pub fn plain() -> (s: Style)
        ensures
            s == Style::spec_plain(),
    {
        Style { fg: None, bg: None, add_modifier: 0, sub_modifier: 0 }
    }

    /// The look of the cursor: black on white.
    #[verifier::when_used_as_spec(spec_cursor)]
    pub fn cursor() -> (s: Style)
        ensures
            s == Style::spec_cursor(),
    {
        Style { fg: Some(Color::Black), bg: Some(Color::White), add_modifier: 0, sub_modifier: 0 }
    }

    /// Whether the style has the colours of the cursor.
    #[verifier::when_used_as_spec(spec_is_cursor)]
    pub fn is_cursor(self) -> (b: bool)
        ensures
            b == self.spec_is_cursor(),
    {
        let fg_black = match self.fg {
            Some(Color::Black) => true,
            _ => false,
        };
        let bg_white = match self.bg {
            Some(Color::White) => true,
            _ => false,
        };
        fg_black && bg_white
    }
}

impl Default for Style {
    fn default() -> (s: Style)
        ensures
            s == Style::spec_plain(),
    {
        Style { fg: None, bg: None, add_modifier: 0, sub_modifier: 0 }
    }
}

} // verus!
