mod color;

pub use color::Color;

use vstd::prelude::*;
use vstd::std_specs::convert::FromSpec;

verus! {

/// A text style, encompassing the color and other style options.
///
/// Each field of this struct is an [`Option`]. When the value is [`None`],
/// then the particular field is *unspecified*. Two styles can be *merged*
/// with either [`Style::with`] or [`Style::or`]; this allows another style
/// to override certain fields only if they are unspecified.
#[derive(Debug, Clone, Copy, PartialEq, Eq)]
pub struct Style {
    /// The foreground color.
    pub foreground: Option<Color>,
    /// The background color.
    pub background: Option<Color>,
    /// Whether the text should be bold.
    pub bold: Option<bool>,
    /// Whether the text should be italicized.
    pub italic: Option<bool>,
    /// Whether the text should be underlined.
    pub underline: Option<bool>,
    /// Whether the text should be blinking (not widely supported).
    pub blink: Option<bool>,
    /// Whether the text should have its colors inverted.
    pub invert: Option<bool>,
    /// Whether the text should be crossed out (not widely supported).
    pub strikethrough: Option<bool>,
}

/// The first option if it is set, and otherwise the second.
pub open spec fn opt_or<T>(a: Option<T>, b: Option<T>) -> Option<T> {
    if a is Some {
        a
    } else {
        b
    }
}

fn opt_or_exec<T: Copy>(a: Option<T>, b: Option<T>) -> (r: Option<T>)
    ensures
        r == opt_or(a, b),
{
    match a {
        Some(x) => Some(x),
        None => b,
    }
}

impl Style {
    /// The empty style, with nothing specified.
    pub open spec fn spec_empty() -> Style {
        Style {
            foreground: None,
            background: None,
            bold: None,
            italic: None,
            underline: None,
            blink: None,
            invert: None,
            strikethrough: None,
        }
    }

    /// The empty style, with nothing specified. Equivalent to `Style::default()`.
    #[verifier::when_used_as_spec(spec_empty)]
    pub fn empty() -> (r: Style)
        ensures
            r == Style::spec_empty(),
    {
        Style {
            foreground: None,
            background: None,
            bold: None,
            italic: None,
            underline: None,
            blink: None,
            invert: None,
            strikethrough: None,
        }
    }

    /// Bold text.
    pub fn bold() -> (r: Style)
        ensures
            r == (Style { bold: Some(true), ..Style::spec_empty() }),
    {
        let mut r = Style::empty();
        r.bold = Some(true);
        r
    }

    /// Italicized text.
    pub fn italic() -> (r: Style)
        ensures
            r == (Style { italic: Some(true), ..Style::spec_empty() }),
    {
        let mut r = Style::empty();
        r.italic = Some(true);
        r
    }

    /// Underlined text.
    pub fn underline() -> (r: Style)
        ensures
            r == (Style { underline: Some(true), ..Style::spec_empty() }),
    {
        let mut r = Style::empty();
        r.underline = Some(true);
        r
    }

    /// Blinking text (not widely supported).
    pub fn blink() -> (r: Style)
        ensures
            r == (Style { blink: Some(true), ..Style::spec_empty() }),
    {
        let mut r = Style::empty();
        r.blink = Some(true);
        r
    }

    /// Inverted colors.
    pub fn invert() -> (r: Style)
        ensures
            r == (Style { invert: Some(true), ..Style::spec_empty() }),
    {
        let mut r = Style::empty();
        r.invert = Some(true);
        r
    }

    /// Crossed-out text (not widely supported).
    pub fn strikethrough() -> (r: Style)
        ensures
            r == (Style { strikethrough: Some(true), ..Style::spec_empty() }),
    {
        let mut r = Style::empty();
        r.strikethrough = Some(true);
        r
    }

    /// Creates a style with only the foreground specified.
    pub fn fg<C>(color: C) -> (r: Style) where Color: From<C>
        ensures
            <Color as FromSpec<C>>::obeys_from_spec() ==> r == (Style {
                foreground: Some(<Color as FromSpec<C>>::from_spec(color)),
                ..Style::spec_empty()
            }),
    {
        let mut r = Style::empty();
        r.foreground = Some(Color::from(color));
        r
    }

    /// Creates a style with only the background specified.
    pub fn bg<C>(color: C) -> (r: Style) where Color: From<C>
        ensures
            <Color as FromSpec<C>>::obeys_from_spec() ==> r == (Style {
                background: Some(<Color as FromSpec<C>>::from_spec(color)),
                ..Style::spec_empty()
            }),
    {
        let mut r = Style::empty();
        r.background = Some(Color::from(color));
        r
    }

    /// The merge of two styles where the receiver's set attributes win and
    /// its unset attributes fall back to `other`: per attribute, the
    /// leftmost defined value wins.
    pub open spec fn spec_or(self, other: Style) -> Style {
        Style {
            foreground: opt_or(self.foreground, other.foreground),
            background: opt_or(self.background, other.background),
            bold: opt_or(self.bold, other.bold),
            italic: opt_or(self.italic, other.italic),
            underline: opt_or(self.underline, other.underline),
            blink: opt_or(self.blink, other.blink),
            invert: opt_or(self.invert, other.invert),
            strikethrough: opt_or(self.strikethrough, other.strikethrough),
        }
    }

    /// The merge of two styles where `other`'s set attributes win and its
    /// unset attributes fall back to the receiver: per attribute, the
    /// rightmost defined value wins.
    pub open spec fn spec_with(self, other: Style) -> Style {
        Style {
            foreground: opt_or(other.foreground, self.foreground),
            background: opt_or(other.background, self.background),
            bold: opt_or(other.bold, self.bold),
            italic: opt_or(other.italic, self.italic),
            underline: opt_or(other.underline, self.underline),
            blink: opt_or(other.blink, self.blink),
            invert: opt_or(other.invert, self.invert),
            strikethrough: opt_or(other.strikethrough, self.strikethrough),
        }
    }

    /// Merges two styles, with `other` taking precedence.
    pub fn with(self, other: Style) -> (r: Style)
        ensures
            r == self.spec_with(other),
    {
        other.or(self)
    }

    /// Merges two styles, with `self` taking precedence.
    pub fn or(self, other: Style) -> (r: Style)
        ensures
            r == self.spec_or(other),
    {
        Style {
            foreground: opt_or_exec(self.foreground, other.foreground),
            background: opt_or_exec(self.background, other.background),
            bold: opt_or_exec(self.bold, other.bold),
            italic: opt_or_exec(self.italic, other.italic),
            underline: opt_or_exec(self.underline, other.underline),
            blink: opt_or_exec(self.blink, other.blink),
            invert: opt_or_exec(self.invert, other.invert),
            strikethrough: opt_or_exec(self.strikethrough, other.strikethrough),
        }
    }
}

/// The escape sequence that selects `c` as the foreground color.
pub open spec fn fg_code(c: Color) -> Seq<char> {
    match c {
        Color::Default => "\x1b[39m"@,
        Color::Ansi(v) => "\x1b[38;5;"@ + crate::ansi::dec(v as nat) + "m"@,
        Color::Rgb(r, g, b) => "\x1b[38;2;"@ + crate::ansi::dec(r as nat) + ";"@ + crate::ansi::dec(
            g as nat,
        ) + ";"@ + crate::ansi::dec(b as nat) + "m"@,
    }
}

/// The escape sequence that selects `c` as the background color.
pub open spec fn bg_code(c: Color) -> Seq<char> {
    match c {
        Color::Default => "\x1b[49m"@,
        Color::Ansi(v) => "\x1b[48;5;"@ + crate::ansi::dec(v as nat) + "m"@,
        Color::Rgb(r, g, b) => "\x1b[48;2;"@ + crate::ansi::dec(r as nat) + ";"@ + crate::ansi::dec(
            g as nat,
        ) + ";"@ + crate::ansi::dec(b as nat) + "m"@,
    }
}

/// The escape sequences that enable a style's attributes, in a fixed
/// order: foreground, background, then bold, italic, underline, blink,
/// invert and strikethrough. Unset attributes contribute nothing.
pub open spec fn style_code(s: Style) -> Seq<char> {
    (match s.foreground {
        Some(c) => fg_code(c),
        None => Seq::<char>::empty(),
    }) + (match s.background {
        Some(c) => bg_code(c),
        None => Seq::<char>::empty(),
    }) + (if s.bold == Some(true) {
        "\x1b[1m"@
    } else {
        Seq::<char>::empty()
    }) + (if s.italic == Some(true) {
        "\x1b[3m"@
    } else {
        Seq::<char>::empty()
    }) + (if s.underline == Some(true) {
        "\x1b[4m"@
    } else {
        Seq::<char>::empty()
    }) + (if s.blink == Some(true) {
        "\x1b[5m"@
    } else {
        Seq::<char>::empty()
    }) + (if s.invert == Some(true) {
        "\x1b[7m"@
    } else {
        Seq::<char>::empty()
    }) + (if s.strikethrough == Some(true) {
        "\x1b[9m"@
    } else {
        Seq::<char>::empty()
    })
}

/// The escape sequence that selects `c` as the foreground color.
fn fg_escape(c: Color) -> (r: String)
    ensures
        r@ == fg_code(c),
{
    match c {
        Color::Default => String::from_str("\x1b[39m"),
        Color::Ansi(v) => crate::ansi::fg_ansi(v),
        Color::Rgb(red, green, blue) => crate::ansi::fg_rgb(red, green, blue),
    }
}

/// The escape sequence that selects `c` as the background color.
fn bg_escape(c: Color) -> (r: String)
    ensures
        r@ == bg_code(c),
{
    match c {
        Color::Default => String::from_str("\x1b[49m"),
        Color::Ansi(v) => crate::ansi::bg_ansi(v),
        Color::Rgb(red, green, blue) => crate::ansi::bg_rgb(red, green, blue),
    }
}

impl Style {
    /// The escape sequences that enable this style's attributes, in a
    /// fixed order; an empty style yields an empty string.
    pub fn escape_string(&self) -> (r: String)
        ensures
            r@ == style_code(*self),
    {
        let mut r = String::new();
        match self.foreground {
            Some(c) => {
                let piece = fg_escape(c);
                r.append(piece.as_str());
            },
            None => {},
        }
        let ghost after_fg = r@;
        match self.background {
            Some(c) => {
                let piece = bg_escape(c);
                r.append(piece.as_str());
            },
            None => {},
        }
        let ghost after_bg = r@;
        match self.bold {
            Some(b) => {
                if b {
                    r.append("\x1b[1m");
                }
            },
            None => {},
        }
        let ghost after_bold = r@;
        match self.italic {
            Some(b) => {
                if b {
                    r.append("\x1b[3m");
                }
            },
            None => {},
        }
        let ghost after_italic = r@;
        match self.underline {
            Some(b) => {
                if b {
                    r.append("\x1b[4m");
                }
            },
            None => {},
        }
        let ghost after_underline = r@;
        match self.blink {
            Some(b) => {
                if b {
                    r.append("\x1b[5m");
                }
            },
            None => {},
        }
        let ghost after_blink = r@;
        match self.invert {
            Some(b) => {
                if b {
                    r.append("\x1b[7m");
                }
            },
            None => {},
        }
        let ghost after_invert = r@;
        match self.strikethrough {
            Some(b) => {
                if b {
                    r.append("\x1b[9m");
                }
            },
            None => {},
        }
        proof {
            assert(r@ =~= style_code(*self));
        }
        r
    }
}

impl Default for Style {
    fn default() -> (r: Self)
        ensures
            r == Style::spec_empty(),
    {
        Style::empty()
    }
}

impl core::ops::Add for Style {
    type Output = Style;

    fn add(self, rhs: Style) -> (r: Style) {
        self.with(rhs)
    }
}

impl vstd::std_specs::ops::AddSpecImpl for Style {
    open spec fn obeys_add_spec() -> bool {
        true
    }

    open spec fn add_req(self, rhs: Style) -> bool {
        true
    }

    open spec fn add_spec(self, rhs: Style) -> Style {
        self.spec_with(rhs)
    }
}

/// Merging with `with` is the flipped form of merging with `or`: for all
/// styles `a` and `b`, `a.with(b)` equals `b.or(a)`.
pub proof fn lemma_with_is_flipped_or(a: Style, b: Style)
    ensures
        a.spec_with(b) == b.spec_or(a),
{
}

/// The empty style is the identity of both merge operators, on either
/// side: every attribute of the other operand is kept unchanged.
pub proof fn lemma_empty_merge_identity(s: Style)
    ensures
        s.spec_or(Style::spec_empty()) == s,
        Style::spec_empty().spec_or(s) == s,
        s.spec_with(Style::spec_empty()) == s,
        Style::spec_empty().spec_with(s) == s,
{
}

} // verus!
