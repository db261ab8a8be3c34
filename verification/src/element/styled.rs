use vstd::prelude::*;

use crate::element::Element;
use crate::render::{Chunk, RenderChunk, chunk_seq_wf, total_width};
use crate::style::Style;

verus! {

/// One chunk with an ambient style laid under it: the chunk's own set
/// attributes win, its unset attributes fall back to `style`. Cursor
/// markers stay unstyled.
pub open spec fn restyle_chunk(c: Chunk, style: Style) -> Chunk {
    if c.cursor {
        c
    } else {
        Chunk { text: c.text, width: c.width, style: c.style.spec_or(style), cursor: false }
    }
}

/// A chunk sequence with an ambient style laid under every chunk.
pub open spec fn restyle_chunks(cs: Seq<Chunk>, style: Style) -> Seq<Chunk> {
    cs.map_values(|c: Chunk| restyle_chunk(c, style))
}

/// Restyling changes no chunk's width, so the total is kept.
pub proof fn lemma_restyle_chunks_width(cs: Seq<Chunk>, style: Style)
    ensures
        total_width(restyle_chunks(cs, style)) == total_width(cs),
    decreases cs.len(),
{
    if cs.len() == 0 {
    } else {
        lemma_restyle_chunks_width(cs.drop_last(), style);
        assert(restyle_chunks(cs, style).drop_last() =~= restyle_chunks(cs.drop_last(), style));
        assert(restyle_chunks(cs, style).last() == restyle_chunk(cs.last(), style));
    }
}

/// An element that renders its content with a particular style laid under
/// the content's own styles.
#[derive(Debug, Clone)]
pub struct Styled<E> {
    /// The ambient style.
    pub style: Style,
    /// The element the style is applied to.
    pub inner: E,
}

impl<E> Styled<E> {
    /// Creates a new [`Styled`].
    pub fn new(style: Style, inner: E) -> (r: Self)
        ensures
            r.style == style,
            r.inner == inner,
    {
        Styled { style, inner }
    }
}

impl<E: Element> Element for Styled<E> {
    open spec fn wf(&self) -> bool {
        self.inner.wf()
    }

    open spec fn spec_width(&self) -> nat {
        self.inner.spec_width()
    }

    open spec fn chunks(&self) -> Seq<Chunk> {
        restyle_chunks(self.inner.chunks(), self.style)
    }

    fn width(&self) -> (w: usize) {
        self.inner.width()
    }

    fn render(&self) -> (v: Vec<RenderChunk>) {
        let cv = self.inner.render();
        let mut out: Vec<RenderChunk> = Vec::new();
        let mut i: usize = 0;
        while i < cv.len()
            invariant
                i <= cv.len(),
                cv.deep_view() == self.inner.chunks(),
                out@.len() == i,
                forall|j: int| 0 <= j < i ==> (#[trigger] out@[j])@ == restyle_chunk(
                    self.inner.chunks()[j],
                    self.style,
                ),
            decreases cv.len() - i,
        {
            let c = &cv[i];
            proof {
                assert(c@ == self.inner.chunks()[i as int]);
            }
            if c.cursor {
                out.push(
                    RenderChunk {
                        value: c.value.clone(),
                        width: c.width,
                        style: c.style,
                        cursor: true,
                    },
                );
            } else {
                out.push(
                    RenderChunk {
                        value: c.value.clone(),
                        width: c.width,
                        style: c.style.or(self.style),
                        cursor: false,
                    },
                );
            }
            i += 1;
        }
        proof {
            assert(out.deep_view() =~= restyle_chunks(self.inner.chunks(), self.style));
            lemma_restyle_chunks_width(self.inner.chunks(), self.style);
            assert forall|j: int| 0 <= j < self.chunks().len() implies crate::render::chunk_wf(
                #[trigger] self.chunks()[j],
            ) by {
                assert(self.chunks()[j] == restyle_chunk(self.inner.chunks()[j], self.style));
            }
        }
        out
    }
}

} // verus!
