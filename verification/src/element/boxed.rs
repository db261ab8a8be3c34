use vstd::prelude::*;

use crate::element::Element;
use crate::render::{Chunk, RenderChunk, chunk_seq_wf, total_width};

verus! {

/// An element with its type erased.
///
/// Boxing eagerly renders the inner element once into an owned list of
/// chunks and caches the total width; later calls retrieve them without
/// re-evaluation. This type can be used to return multiple kinds of
/// elements from a single function.
pub struct BoxElement {
    /// The cached total width of the element.
    pub width: usize,
    /// The chunks the element rendered to when it was boxed.
    pub content: Vec<RenderChunk>,
}

impl BoxElement {
    /// Boxes the provided element.
    pub fn new<E: Element>(inner: E) -> (r: BoxElement)
        requires
            inner.wf(),
        ensures
            r.wf(),
            r.chunks() == inner.chunks(),
            r.spec_width() == inner.spec_width(),
    {
        let width = inner.width();
        let content = inner.render();
        BoxElement { width, content }
    }
}

impl Element for BoxElement {
    open spec fn wf(&self) -> bool {
        &&& chunk_seq_wf(self.content.deep_view())
        &&& total_width(self.content.deep_view()) == self.width as nat
    }

    open spec fn spec_width(&self) -> nat {
        self.width as nat
    }

    open spec fn chunks(&self) -> Seq<Chunk> {
        self.content.deep_view()
    }

    fn width(&self) -> (w: usize) {
        self.width
    }

    fn render(&self) -> (v: Vec<RenderChunk>) {
        let mut out: Vec<RenderChunk> = Vec::new();
        let mut i: usize = 0;
        while i < self.content.len()
            invariant
                i <= self.content.len(),
                out@.len() == i,
                forall|j: int| 0 <= j < i ==> (#[trigger] out@[j])@ == self.content@[j]@,
            decreases self.content.len() - i,
        {
            let c = &self.content[i];
            out.push(
                RenderChunk {
                    value: c.value.clone(),
                    width: c.width,
                    style: c.style,
                    cursor: c.cursor,
                },
            );
            i += 1;
        }
        proof {
            assert(out.deep_view() =~= self.content.deep_view());
        }
        out
    }
}

} // verus!
