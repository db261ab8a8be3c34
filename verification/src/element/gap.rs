use vstd::prelude::*;

use crate::element::Element;
use crate::render::{Chunk, RenderChunk, chunk_seq_wf, chunk_wf, total_width};
use crate::style::Style;

verus! {

/// A sequence of `n` space characters.
pub open spec fn spaces(n: nat) -> Seq<char> {
    Seq::new(n, |i: int| ' ')
}

/// The model of a blank chunk of `k` spaces.
pub open spec fn blank_chunk(k: nat) -> Chunk {
    Chunk { text: spaces(k), width: k, style: Style::spec_empty(), cursor: false }
}

/// The chunks a [`Gap`] of `n` columns renders to: blank chunks of at most
/// sixteen spaces each, whose widths sum to `n`.
pub open spec fn gap_chunks(n: nat) -> Seq<Chunk>
    decreases n,
{
    if n == 0 {
        Seq::empty()
    } else if n <= 16 {
        seq![blank_chunk(n)]
    } else {
        seq![blank_chunk(16)] + gap_chunks((n - 16) as nat)
    }
}

/// The blank filler of a gap occupies exactly the gap's width.
pub proof fn lemma_gap_chunks_width(n: nat)
    ensures
        total_width(gap_chunks(n)) == n,
    decreases n,
{
    if n == 0 {
    } else if n <= 16 {
        crate::render::lemma_total_width_singleton(blank_chunk(n));
    } else {
        lemma_gap_chunks_width((n - 16) as nat);
        crate::render::lemma_total_width_concat(seq![blank_chunk(16)], gap_chunks((n - 16) as nat));
        crate::render::lemma_total_width_singleton(blank_chunk(16));
    }
}

/// An element that renders as `n` blank columns.
#[derive(Debug, Clone, Copy)]
pub struct Gap(pub usize);

/// A string of `k` spaces.
fn blank(k: usize) -> (s: String)
    ensures
        s@ == spaces(k as nat),
{
    let mut s = String::new();
    let mut i: usize = 0;
    proof {
        assert(s@ =~= spaces(0));
    }
    while i < k
        invariant
            i <= k,
            s@ == spaces(i as nat),
        decreases k - i,
    {
        s.append(" ");
        proof {
            reveal_strlit(" ");
            assert(s@ =~= spaces((i + 1) as nat));
        }
        i += 1;
    }
    s
}

impl Element for Gap {
    open spec fn wf(&self) -> bool {
        true
    }

    open spec fn spec_width(&self) -> nat {
        self.0 as nat
    }

    open spec fn chunks(&self) -> Seq<Chunk> {
        gap_chunks(self.0 as nat)
    }

    fn width(&self) -> (w: usize) {
        self.0
    }

    fn render(&self) -> (v: Vec<RenderChunk>) {
        let mut v: Vec<RenderChunk> = Vec::new();
        let mut size = self.0;
        proof {
            assert(gap_chunks(self.0 as nat) =~= v.deep_view() + gap_chunks(size as nat));
        }
        while size > 0
            invariant
                gap_chunks(self.0 as nat) == v.deep_view() + gap_chunks(size as nat),
                chunk_seq_wf(v.deep_view()),
            decreases size,
        {
            let k = if size < 16 {
                size
            } else {
                16
            };
            let s = blank(k);
            let w = crate::width(s.as_str());
            proof {
                assert(forall|i: int| 0 <= i < s@.len() ==> s@[i] == ' ');
                assert(w as nat == k as nat);
            }
            let ghost old_views = v.deep_view();
            v.push(RenderChunk::with_known_width(s.as_str(), w, Style::empty()));
            proof {
                assert(v.deep_view() =~= old_views + seq![blank_chunk(k as nat)]);
                if size <= 16 {
                    assert(gap_chunks(size as nat) =~= seq![blank_chunk(size as nat)] + gap_chunks(
                        0,
                    ));
                }
                assert(gap_chunks(self.0 as nat) =~= v.deep_view() + gap_chunks(
                    (size - k) as nat,
                ));
            }
            size = size - k;
        }
        proof {
            assert(gap_chunks(0) == Seq::<Chunk>::empty());
            assert(v.deep_view() + gap_chunks(0) =~= v.deep_view());
            assert(v.deep_view() == gap_chunks(self.0 as nat));
            assert(self.chunks() == gap_chunks(self.0 as nat));
            assert(chunk_seq_wf(self.chunks()));
            lemma_gap_chunks_width(self.0 as nat);
            assert(total_width(self.chunks()) == self.spec_width());
        }
        v
    }
}

} // verus!
