use vstd::prelude::*;

use crate::element::Element;
use crate::render::{Chunk, RenderChunk, cursor_chunk, lemma_total_width_singleton};

verus! {

/// An element that places the cursor at its position. It occupies no
/// columns and renders as exactly one cursor-marker chunk.
#[derive(Debug, Clone, Copy)]
pub struct Cursor;

impl Element for Cursor {
    open spec fn wf(&self) -> bool {
        true
    }

    open spec fn spec_width(&self) -> nat {
        0
    }

    open spec fn chunks(&self) -> Seq<Chunk> {
        seq![cursor_chunk()]
    }

    fn width(&self) -> (w: usize) {
        0
    }

    fn render(&self) -> (v: Vec<RenderChunk>) {
        let mut v: Vec<RenderChunk> = Vec::new();
        v.push(RenderChunk::cursor());
        proof {
            assert(v.deep_view() =~= self.chunks());
            lemma_total_width_singleton(cursor_chunk());
        }
        v
    }
}

} // verus!
