//! A line-based terminal UI library: composable text elements with exact
//! width accounting, fixed-width truncation and padding over display
//! columns, and an incremental redraw engine that repaints a small block of
//! lines in place.

pub mod ansi;
pub mod element;
pub mod render;
pub mod style;

pub use render::RenderChunk;
pub use render::Renderer;
pub use style::Color;
pub use style::Style;

use vstd::prelude::*;

verus! {

/// The number of terminal columns a string occupies when displayed. The
/// value is fixed by the characters alone; it is given meaning by the
/// contract of [`width`], which computes it.
pub uninterp spec fn display_width(s: Seq<char>) -> nat;

/// Relies on `unicode_width::UnicodeWidthStr::width`: the displayed column
/// count of a string, determined by its characters alone. An empty string
/// occupies no columns, and a string of ASCII spaces occupies one column
/// per space; both follow from the crate's per-character width tables.
#[verifier::external_body]
pub(crate) fn width(text: &str) -> (r: usize)
    ensures
        r as nat == display_width(text@),
        text@.len() == 0 ==> r == 0,
        (forall|i: int| 0 <= i < text@.len() ==> text@[i] == ' ') ==> r as nat == text@.len(),
{
    unicode_width::UnicodeWidthStr::width(text)
}

} // verus!
