use vstd::prelude::*;

verus! {

/// A terminal color, which can be applied to the foreground or background.
///
/// Note that some distinct values of [`Color`] could end up appearing as the
/// same color when displayed in the terminal; equality only compares the
/// representation of the enum.
#[derive(Debug, Clone, Copy, PartialEq, Eq)]
pub enum Color {
    /// The default color used by the terminal.
    Default,
    /// An ANSI color code.
    Ansi(u8),
    /// An RGB color.
    Rgb(u8, u8, u8),
}

impl Default for Color {
    fn default() -> (r: Self)
        ensures
            r == Color::Default,
    {
        Color::Default
    }
}

impl From<u8> for Color {
    fn from(value: u8) -> (r: Self)
        ensures
            r == Color::Ansi(value),
    {
        Color::Ansi(value)
    }
}

impl vstd::std_specs::convert::FromSpecImpl<u8> for Color {
    open spec fn obeys_from_spec() -> bool {
        true
    }

    open spec fn from_spec(value: u8) -> Self {
        Color::Ansi(value)
    }
}

impl From<(u8, u8, u8)> for Color {
    fn from(value: (u8, u8, u8)) -> (r: Self)
        ensures
            r == Color::Rgb(value.0, value.1, value.2),
    {
        Color::Rgb(value.0, value.1, value.2)
    }
}

impl vstd::std_specs::convert::FromSpecImpl<(u8, u8, u8)> for Color {
    open spec fn obeys_from_spec() -> bool {
        true
    }

    open spec fn from_spec(value: (u8, u8, u8)) -> Self {
        Color::Rgb(value.0, value.1, value.2)
    }
}

} // verus!
