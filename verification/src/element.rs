//! The [`Element`] trait, and the elements that implement it.

mod boxed;
mod cursor;
mod fixed_width;
mod gap;
mod impls;
mod into;
mod styled;
mod text;

pub use boxed::BoxElement;
pub use cursor::Cursor;
pub use fixed_width::Direction;
pub use fixed_width::FixedWidth;
pub use gap::Gap;
pub use into::IntoElement;
pub use styled::Styled;
pub use text::Text;

use crate::render::{Chunk, RenderChunk, chunk_seq_wf, total_width};
use vstd::prelude::*;

verus! {

/// A particular widget that can be rendered to the terminal.
///
/// An element models its output as a sequence of [`Chunk`]s, given by
/// [`Element::chunks`]; rendering produces exactly those chunks, each
/// well-formed, and their widths sum to the element's width — cursor
/// markers are zero-width, so they never disturb this accounting.
pub trait Element {
    /// Whether this element is well-formed: its recorded widths are real
    /// display widths, and its total width fits the machine.
    spec fn wf(&self) -> bool;

    /// The width this element reserves, in columns.
    spec fn spec_width(&self) -> nat;

    /// The chunks this element renders to.
    spec fn chunks(&self) -> Seq<Chunk>;

    /// The width of the element, in columns.
    fn width(&self) -> (w: usize)
        requires
            self.wf(),
        ensures
            w as nat == self.spec_width(),
    ;

    /// Renders the element into its sequence of chunks. The chunks are
    /// well-formed and their widths sum exactly to the element's width.
    fn render(&self) -> (v: Vec<RenderChunk>)
        requires
            self.wf(),
        ensures
            v.deep_view() == self.chunks(),
            chunk_seq_wf(self.chunks()),
            total_width(self.chunks()) == self.spec_width(),
    ;
}

} // verus!
