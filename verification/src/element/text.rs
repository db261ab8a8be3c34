use vstd::prelude::*;

use crate::display_width;
use crate::element::Element;
use crate::render::{Chunk, RenderChunk, text_chunk};
use crate::style::Style;

verus! {

/// An element that renders a piece of text as one unstyled chunk.
#[derive(Debug, Clone)]
pub struct Text {
    /// The text to display.
    pub value: String,
    /// The display width of `value`, measured when the element was built.
    pub width: usize,
}

impl Text {
    /// Creates a new [`Text`] from the given string.
    pub fn new(value: &str) -> (r: Text)
        ensures
            r.wf(),
            r.value@ == value@,
            r.chunks() == seq![text_chunk(value@, Style::spec_empty())],
            r.spec_width() == display_width(value@),
    {
        let width = crate::width(value);
        Text { value: value.to_owned(), width }
    }
}

impl Element for Text {
    open spec fn wf(&self) -> bool {
        self.width as nat == display_width(self.value@)
    }

    open spec fn spec_width(&self) -> nat {
        display_width(self.value@)
    }

    open spec fn chunks(&self) -> Seq<Chunk> {
        seq![text_chunk(self.value@, Style::spec_empty())]
    }

    fn width(&self) -> (w: usize) {
        self.width
    }

    fn render(&self) -> (v: Vec<RenderChunk>) {
        let mut v: Vec<RenderChunk> = Vec::new();
        v.push(RenderChunk::with_known_width(self.value.as_str(), self.width, Style::empty()));
        proof {
            assert(v.deep_view() =~= self.chunks());
            crate::render::lemma_total_width_singleton(text_chunk(self.value@, Style::spec_empty()));
        }
        v
    }
}

} // verus!
