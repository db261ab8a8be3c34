use vstd::prelude::*;

use crate::element::Element;
use crate::render::{
    Chunk, RenderChunk, chunk_seq_wf, lemma_chunk_seq_wf_concat, lemma_total_width_concat,
    total_width,
};

verus! {

impl<'e, E: Element + ?Sized> Element for &'e E {
    open spec fn wf(&self) -> bool {
        (**self).wf()
    }

    open spec fn spec_width(&self) -> nat {
        (**self).spec_width()
    }

    open spec fn chunks(&self) -> Seq<Chunk> {
        (**self).chunks()
    }

    fn width(&self) -> (w: usize) {
        (**self).width()
    }

    fn render(&self) -> (v: Vec<RenderChunk>) {
        (**self).render()
    }
}

impl Element for () {
    open spec fn wf(&self) -> bool {
        true
    }

    open spec fn spec_width(&self) -> nat {
        0
    }

    open spec fn chunks(&self) -> Seq<Chunk> {
        Seq::empty()
    }

    fn width(&self) -> (w: usize) {
        0
    }

    fn render(&self) -> (v: Vec<RenderChunk>) {
        let v: Vec<RenderChunk> = Vec::new();
        proof {
            assert(v.deep_view() =~= Seq::<Chunk>::empty());
        }
        v
    }
}

impl<E: Element> Element for Option<E> {
    open spec fn wf(&self) -> bool {
        match self {
            Some(e) => e.wf(),
            None => true,
        }
    }

    open spec fn spec_width(&self) -> nat {
        match self {
            Some(e) => e.spec_width(),
            None => 0,
        }
    }

    open spec fn chunks(&self) -> Seq<Chunk> {
        match self {
            Some(e) => e.chunks(),
            None => Seq::empty(),
        }
    }

    fn width(&self) -> (w: usize) {
        match self {
            Some(e) => e.width(),
            None => 0,
        }
    }

    fn render(&self) -> (v: Vec<RenderChunk>) {
        match self {
            Some(e) => e.render(),
            None => {
                let v: Vec<RenderChunk> = Vec::new();
                proof {
                    assert(v.deep_view() =~= Seq::<Chunk>::empty());
                }
                v
            },
        }
    }
}

/// The total width reserved by a sequence of elements.
pub open spec fn elems_width<E: Element>(s: Seq<E>) -> nat
    decreases s.len(),
{
    if s.len() == 0 {
        0
    } else {
        elems_width(s.drop_last()) + s.last().spec_width()
    }
}

/// The concatenated chunks of a sequence of elements, in order.
pub open spec fn elems_chunks<E: Element>(s: Seq<E>) -> Seq<Chunk>
    decreases s.len(),
{
    if s.len() == 0 {
        Seq::empty()
    } else {
        elems_chunks(s.drop_last()) + s.last().chunks()
    }
}

/// A prefix of elements never reserves more columns than all of them.
pub proof fn lemma_elems_width_take<E: Element>(s: Seq<E>, i: int)
    requires
        0 <= i <= s.len(),
    ensures
        elems_width(s.take(i)) <= elems_width(s),
    decreases s.len(),
{
    if i < s.len() {
        assert(s.drop_last().take(i) =~= s.take(i));
        lemma_elems_width_take(s.drop_last(), i);
    } else {
        assert(s.take(i) =~= s);
    }
}

impl<E: Element> Element for [E] {
    open spec fn wf(&self) -> bool {
        &&& forall|i: int| 0 <= i < self@.len() ==> (#[trigger] self@[i]).wf()
        &&& elems_width(self@) <= usize::MAX as nat
    }

    open spec fn spec_width(&self) -> nat {
        elems_width(self@)
    }

    open spec fn chunks(&self) -> Seq<Chunk> {
        elems_chunks(self@)
    }

    fn width(&self) -> (w: usize) {
        let n = self.len();
        let mut w: usize = 0;
        let mut i: usize = 0;
        proof {
            assert(self@.take(0) =~= Seq::<E>::empty());
        }
        while i < n
            invariant
                i <= n,
                self@.len() == n,
                forall|j: int| 0 <= j < self@.len() ==> (#[trigger] self@[j]).wf(),
                elems_width(self@) <= usize::MAX as nat,
                w as nat == elems_width(self@.take(i as int)),
            decreases n - i,
        {
            proof {
                assert(self@.take(i as int + 1).drop_last() =~= self@.take(i as int));
                lemma_elems_width_take(self@, i as int + 1);
            }
            let e = &self[i];
            w = w + e.width();
            i += 1;
        }
        proof {
            assert(self@.take(n as int) =~= self@);
        }
        w
    }

    fn render(&self) -> (v: Vec<RenderChunk>) {
        let n = self.len();
        let mut v: Vec<RenderChunk> = Vec::new();
        let mut i: usize = 0;
        proof {
            assert(self@.take(0) =~= Seq::<E>::empty());
            assert(v.deep_view() =~= elems_chunks(self@.take(0)));
        }
        while i < n
            invariant
                i <= n,
                self@.len() == n,
                forall|j: int| 0 <= j < self@.len() ==> (#[trigger] self@[j]).wf(),
                v.deep_view() == elems_chunks(self@.take(i as int)),
                chunk_seq_wf(elems_chunks(self@.take(i as int))),
                total_width(elems_chunks(self@.take(i as int))) == elems_width(
                    self@.take(i as int),
                ),
            decreases n - i,
        {
            let ghost prefix = self@.take(i as int);
            let e = &self[i];
            let mut ve = e.render();
            v.append(&mut ve);
            proof {
                assert(self@.take(i as int + 1).drop_last() =~= prefix);
                assert(v.deep_view() =~= elems_chunks(self@.take(i as int + 1)));
                lemma_total_width_concat(elems_chunks(prefix), e.chunks());
                lemma_chunk_seq_wf_concat(elems_chunks(prefix), e.chunks());
            }
            i += 1;
        }
        proof {
            assert(self@.take(n as int) =~= self@);
        }
        v
    }
}

impl<E: Element, const N: usize> Element for [E; N] {
    open spec fn wf(&self) -> bool {
        &&& forall|i: int| 0 <= i < N ==> (#[trigger] self@[i]).wf()
        &&& elems_width(self@) <= usize::MAX as nat
    }

    open spec fn spec_width(&self) -> nat {
        elems_width(self@)
    }

    open spec fn chunks(&self) -> Seq<Chunk> {
        elems_chunks(self@)
    }

    fn width(&self) -> (w: usize) {
        let mut w: usize = 0;
        let mut i: usize = 0;
        proof {
            assert(self@.take(0) =~= Seq::<E>::empty());
        }
        while i < N
            invariant
                i <= N,
                self@.len() == N,
                forall|j: int| 0 <= j < N ==> (#[trigger] self@[j]).wf(),
                elems_width(self@) <= usize::MAX as nat,
                w as nat == elems_width(self@.take(i as int)),
            decreases N - i,
        {
            proof {
                assert(self@.take(i as int + 1).drop_last() =~= self@.take(i as int));
                lemma_elems_width_take(self@, i as int + 1);
            }
            let e = vstd::array::array_index_get(self, i);
            w = w + e.width();
            i += 1;
        }
        proof {
            assert(self@.take(N as int) =~= self@);
        }
        w
    }

    fn render(&self) -> (v: Vec<RenderChunk>) {
        let mut v: Vec<RenderChunk> = Vec::new();
        let mut i: usize = 0;
        proof {
            assert(self@.take(0) =~= Seq::<E>::empty());
            assert(v.deep_view() =~= elems_chunks(self@.take(0)));
        }
        while i < N
            invariant
                i <= N,
                self@.len() == N,
                forall|j: int| 0 <= j < N ==> (#[trigger] self@[j]).wf(),
                v.deep_view() == elems_chunks(self@.take(i as int)),
                chunk_seq_wf(elems_chunks(self@.take(i as int))),
                total_width(elems_chunks(self@.take(i as int))) == elems_width(
                    self@.take(i as int),
                ),
            decreases N - i,
        {
            let ghost prefix = self@.take(i as int);
            let e = vstd::array::array_index_get(self, i);
            let mut ve = e.render();
            v.append(&mut ve);
            proof {
                assert(self@.take(i as int + 1).drop_last() =~= prefix);
                assert(v.deep_view() =~= elems_chunks(self@.take(i as int + 1)));
                lemma_total_width_concat(elems_chunks(prefix), e.chunks());
                lemma_chunk_seq_wf_concat(elems_chunks(prefix), e.chunks());
            }
            i += 1;
        }
        proof {
            assert(self@.take(N as int) =~= self@);
        }
        v
    }
}

impl<A: Element, B: Element> Element for (A, B) {
    open spec fn wf(&self) -> bool {
        &&& self.0.wf()
        &&& self.1.wf()
        &&& self.spec_width() <= usize::MAX as nat
    }

    open spec fn spec_width(&self) -> nat {
        self.0.spec_width() + self.1.spec_width()
    }

    open spec fn chunks(&self) -> Seq<Chunk> {
        self.0.chunks() + self.1.chunks()
    }

    fn width(&self) -> (w: usize) {
        self.0.width() + self.1.width()
    }

    fn render(&self) -> (v: Vec<RenderChunk>) {
        let mut v = self.0.render();
        let mut v1 = self.1.render();
        v.append(&mut v1);
        proof {
            assert(v.deep_view() =~= self.chunks());
            lemma_total_width_concat(self.0.chunks(), self.1.chunks());
            lemma_chunk_seq_wf_concat(self.0.chunks(), self.1.chunks());
        }
        v
    }
}

impl<A: Element, B: Element, C: Element> Element for (A, B, C) {
    open spec fn wf(&self) -> bool {
        &&& self.0.wf()
        &&& self.1.wf()
        &&& self.2.wf()
        &&& self.spec_width() <= usize::MAX as nat
    }

    open spec fn spec_width(&self) -> nat {
        self.0.spec_width() + self.1.spec_width() + self.2.spec_width()
    }

    open spec fn chunks(&self) -> Seq<Chunk> {
        self.0.chunks() + self.1.chunks() + self.2.chunks()
    }

    fn width(&self) -> (w: usize) {
        self.0.width() + self.1.width() + self.2.width()
    }

    fn render(&self) -> (v: Vec<RenderChunk>) {
        let mut v = self.0.render();
        let mut v1 = self.1.render();
        let mut v2 = self.2.render();
        v.append(&mut v1);
        v.append(&mut v2);
        proof {
            assert(v.deep_view() =~= self.chunks());
            lemma_total_width_concat(self.0.chunks(), self.1.chunks());
            lemma_total_width_concat(self.0.chunks() + self.1.chunks(), self.2.chunks());
            lemma_chunk_seq_wf_concat(self.0.chunks(), self.1.chunks());
            lemma_chunk_seq_wf_concat(self.0.chunks() + self.1.chunks(), self.2.chunks());
        }
        v
    }
}

impl<A: Element, B: Element, C: Element, D: Element> Element for (A, B, C, D) {
    open spec fn wf(&self) -> bool {
        &&& self.0.wf()
        &&& self.1.wf()
        &&& self.2.wf()
        &&& self.3.wf()
        &&& self.spec_width() <= usize::MAX as nat
    }

    open spec fn spec_width(&self) -> nat {
        self.0.spec_width() + self.1.spec_width() + self.2.spec_width() + self.3.spec_width()
    }

    open spec fn chunks(&self) -> Seq<Chunk> {
        self.0.chunks() + self.1.chunks() + self.2.chunks() + self.3.chunks()
    }

    fn width(&self) -> (w: usize) {
        self.0.width() + self.1.width() + self.2.width() + self.3.width()
    }

    fn render(&self) -> (v: Vec<RenderChunk>) {
        let mut v = self.0.render();
        let mut v1 = self.1.render();
        let mut v2 = self.2.render();
        let mut v3 = self.3.render();
        v.append(&mut v1);
        v.append(&mut v2);
        v.append(&mut v3);
        proof {
            assert(v.deep_view() =~= self.chunks());
            lemma_total_width_concat(self.0.chunks(), self.1.chunks());
            lemma_total_width_concat(self.0.chunks() + self.1.chunks(), self.2.chunks());
            lemma_total_width_concat(
                self.0.chunks() + self.1.chunks() + self.2.chunks(),
                self.3.chunks(),
            );
            lemma_chunk_seq_wf_concat(self.0.chunks(), self.1.chunks());
            lemma_chunk_seq_wf_concat(self.0.chunks() + self.1.chunks(), self.2.chunks());
            lemma_chunk_seq_wf_concat(
                self.0.chunks() + self.1.chunks() + self.2.chunks(),
                self.3.chunks(),
            );
        }
        v
    }
}

impl<A: Element, B: Element, C: Element, D: Element, E: Element> Element for (A, B, C, D, E) {
    open spec fn wf(&self) -> bool {
        &&& self.0.wf()
        &&& self.1.wf()
        &&& self.2.wf()
        &&& self.3.wf()
        &&& self.4.wf()
        &&& self.spec_width() <= usize::MAX as nat
    }

    open spec fn spec_width(&self) -> nat {
        self.0.spec_width() + self.1.spec_width() + self.2.spec_width() + self.3.spec_width() + self.4.spec_width()
    }

    open spec fn chunks(&self) -> Seq<Chunk> {
        self.0.chunks() + self.1.chunks() + self.2.chunks() + self.3.chunks() + self.4.chunks()
    }

    fn width(&self) -> (w: usize) {
        self.0.width() + self.1.width() + self.2.width() + self.3.width() + self.4.width()
    }

    fn render(&self) -> (v: Vec<RenderChunk>) {
        let mut v = self.0.render();
        let mut v1 = self.1.render();
        let mut v2 = self.2.render();
        let mut v3 = self.3.render();
        let mut v4 = self.4.render();
        v.append(&mut v1);
        v.append(&mut v2);
        v.append(&mut v3);
        v.append(&mut v4);
        proof {
            assert(v.deep_view() =~= self.chunks());
            lemma_total_width_concat(self.0.chunks(), self.1.chunks());
            lemma_total_width_concat(self.0.chunks() + self.1.chunks(), self.2.chunks());
            lemma_total_width_concat(self.0.chunks() + self.1.chunks() + self.2.chunks(), self.3.chunks());
            lemma_total_width_concat(self.0.chunks() + self.1.chunks() + self.2.chunks() + self.3.chunks(), self.4.chunks());
            lemma_chunk_seq_wf_concat(self.0.chunks(), self.1.chunks());
            lemma_chunk_seq_wf_concat(self.0.chunks() + self.1.chunks(), self.2.chunks());
            lemma_chunk_seq_wf_concat(self.0.chunks() + self.1.chunks() + self.2.chunks(), self.3.chunks());
            lemma_chunk_seq_wf_concat(self.0.chunks() + self.1.chunks() + self.2.chunks() + self.3.chunks(), self.4.chunks());
        }
        v
    }
}

impl<A: Element, B: Element, C: Element, D: Element, E: Element, F: Element> Element for (A, B, C, D, E, F) {
    open spec fn wf(&self) -> bool {
        &&& self.0.wf()
        &&& self.1.wf()
        &&& self.2.wf()
        &&& self.3.wf()
        &&& self.4.wf()
        &&& self.5.wf()
        &&& self.spec_width() <= usize::MAX as nat
    }

    open spec fn spec_width(&self) -> nat {
        self.0.spec_width() + self.1.spec_width() + self.2.spec_width() + self.3.spec_width() + self.4.spec_width() + self.5.spec_width()
    }

    open spec fn chunks(&self) -> Seq<Chunk> {
        self.0.chunks() + self.1.chunks() + self.2.chunks() + self.3.chunks() + self.4.chunks() + self.5.chunks()
    }

    fn width(&self) -> (w: usize) {
        self.0.width() + self.1.width() + self.2.width() + self.3.width() + self.4.width() + self.5.width()
    }

    fn render(&self) -> (v: Vec<RenderChunk>) {
        let mut v = self.0.render();
        let mut v1 = self.1.render();
        let mut v2 = self.2.render();
        let mut v3 = self.3.render();
        let mut v4 = self.4.render();
        let mut v5 = self.5.render();
        v.append(&mut v1);
        v.append(&mut v2);
        v.append(&mut v3);
        v.append(&mut v4);
        v.append(&mut v5);
        proof {
            assert(v.deep_view() =~= self.chunks());
            lemma_total_width_concat(self.0.chunks(), self.1.chunks());
            lemma_total_width_concat(self.0.chunks() + self.1.chunks(), self.2.chunks());
            lemma_total_width_concat(self.0.chunks() + self.1.chunks() + self.2.chunks(), self.3.chunks());
            lemma_total_width_concat(self.0.chunks() + self.1.chunks() + self.2.chunks() + self.3.chunks(), self.4.chunks());
            lemma_total_width_concat(self.0.chunks() + self.1.chunks() + self.2.chunks() + self.3.chunks() + self.4.chunks(), self.5.chunks());
            lemma_chunk_seq_wf_concat(self.0.chunks(), self.1.chunks());
            lemma_chunk_seq_wf_concat(self.0.chunks() + self.1.chunks(), self.2.chunks());
            lemma_chunk_seq_wf_concat(self.0.chunks() + self.1.chunks() + self.2.chunks(), self.3.chunks());
            lemma_chunk_seq_wf_concat(self.0.chunks() + self.1.chunks() + self.2.chunks() + self.3.chunks(), self.4.chunks());
            lemma_chunk_seq_wf_concat(self.0.chunks() + self.1.chunks() + self.2.chunks() + self.3.chunks() + self.4.chunks(), self.5.chunks());
        }
        v
    }
}

impl<A: Element, B: Element, C: Element, D: Element, E: Element, F: Element, G: Element> Element for (A, B, C, D, E, F, G) {
    open spec fn wf(&self) -> bool {
        &&& self.0.wf()
        &&& self.1.wf()
        &&& self.2.wf()
        &&& self.3.wf()
        &&& self.4.wf()
        &&& self.5.wf()
        &&& self.6.wf()
        &&& self.spec_width() <= usize::MAX as nat
    }

    open spec fn spec_width(&self) -> nat {
        self.0.spec_width() + self.1.spec_width() + self.2.spec_width() + self.3.spec_width() + self.4.spec_width() + self.5.spec_width() + self.6.spec_width()
    }

    open spec fn chunks(&self) -> Seq<Chunk> {
        self.0.chunks() + self.1.chunks() + self.2.chunks() + self.3.chunks() + self.4.chunks() + self.5.chunks() + self.6.chunks()
    }

    fn width(&self) -> (w: usize) {
        self.0.width() + self.1.width() + self.2.width() + self.3.width() + self.4.width() + self.5.width() + self.6.width()
    }

    fn render(&self) -> (v: Vec<RenderChunk>) {
        let mut v = self.0.render();
        let mut v1 = self.1.render();
        let mut v2 = self.2.render();
        let mut v3 = self.3.render();
        let mut v4 = self.4.render();
        let mut v5 = self.5.render();
        let mut v6 = self.6.render();
        v.append(&mut v1);
        v.append(&mut v2);
        v.append(&mut v3);
        v.append(&mut v4);
        v.append(&mut v5);
        v.append(&mut v6);
        proof {
            assert(v.deep_view() =~= self.chunks());
            lemma_total_width_concat(self.0.chunks(), self.1.chunks());
            lemma_total_width_concat(self.0.chunks() + self.1.chunks(), self.2.chunks());
            lemma_total_width_concat(self.0.chunks() + self.1.chunks() + self.2.chunks(), self.3.chunks());
            lemma_total_width_concat(self.0.chunks() + self.1.chunks() + self.2.chunks() + self.3.chunks(), self.4.chunks());
            lemma_total_width_concat(self.0.chunks() + self.1.chunks() + self.2.chunks() + self.3.chunks() + self.4.chunks(), self.5.chunks());
            lemma_total_width_concat(self.0.chunks() + self.1.chunks() + self.2.chunks() + self.3.chunks() + self.4.chunks() + self.5.chunks(), self.6.chunks());
            lemma_chunk_seq_wf_concat(self.0.chunks(), self.1.chunks());
            lemma_chunk_seq_wf_concat(self.0.chunks() + self.1.chunks(), self.2.chunks());
            lemma_chunk_seq_wf_concat(self.0.chunks() + self.1.chunks() + self.2.chunks(), self.3.chunks());
            lemma_chunk_seq_wf_concat(self.0.chunks() + self.1.chunks() + self.2.chunks() + self.3.chunks(), self.4.chunks());
            lemma_chunk_seq_wf_concat(self.0.chunks() + self.1.chunks() + self.2.chunks() + self.3.chunks() + self.4.chunks(), self.5.chunks());
            lemma_chunk_seq_wf_concat(self.0.chunks() + self.1.chunks() + self.2.chunks() + self.3.chunks() + self.4.chunks() + self.5.chunks(), self.6.chunks());
        }
        v
    }
}

impl<A: Element, B: Element, C: Element, D: Element, E: Element, F: Element, G: Element, H: Element> Element for (A, B, C, D, E, F, G, H) {
    open spec fn wf(&self) -> bool {
        &&& self.0.wf()
        &&& self.1.wf()
        &&& self.2.wf()
        &&& self.3.wf()
        &&& self.4.wf()
        &&& self.5.wf()
        &&& self.6.wf()
        &&& self.7.wf()
        &&& self.spec_width() <= usize::MAX as nat
    }

    open spec fn spec_width(&self) -> nat {
        self.0.spec_width() + self.1.spec_width() + self.2.spec_width() + self.3.spec_width() + self.4.spec_width() + self.5.spec_width() + self.6.spec_width() + self.7.spec_width()
    }

    open spec fn chunks(&self) -> Seq<Chunk> {
        self.0.chunks() + self.1.chunks() + self.2.chunks() + self.3.chunks() + self.4.chunks() + self.5.chunks() + self.6.chunks() + self.7.chunks()
    }

    fn width(&self) -> (w: usize) {
        self.0.width() + self.1.width() + self.2.width() + self.3.width() + self.4.width() + self.5.width() + self.6.width() + self.7.width()
    }

    fn render(&self) -> (v: Vec<RenderChunk>) {
        let mut v = self.0.render();
        let mut v1 = self.1.render();
        let mut v2 = self.2.render();
        let mut v3 = self.3.render();
        let mut v4 = self.4.render();
        let mut v5 = self.5.render();
        let mut v6 = self.6.render();
        let mut v7 = self.7.render();
        v.append(&mut v1);
        v.append(&mut v2);
        v.append(&mut v3);
        v.append(&mut v4);
        v.append(&mut v5);
        v.append(&mut v6);
        v.append(&mut v7);
        proof {
            assert(v.deep_view() =~= self.chunks());
            lemma_total_width_concat(self.0.chunks(), self.1.chunks());
            lemma_total_width_concat(self.0.chunks() + self.1.chunks(), self.2.chunks());
            lemma_total_width_concat(self.0.chunks() + self.1.chunks() + self.2.chunks(), self.3.chunks());
            lemma_total_width_concat(self.0.chunks() + self.1.chunks() + self.2.chunks() + self.3.chunks(), self.4.chunks());
            lemma_total_width_concat(self.0.chunks() + self.1.chunks() + self.2.chunks() + self.3.chunks() + self.4.chunks(), self.5.chunks());
            lemma_total_width_concat(self.0.chunks() + self.1.chunks() + self.2.chunks() + self.3.chunks() + self.4.chunks() + self.5.chunks(), self.6.chunks());
            lemma_total_width_concat(self.0.chunks() + self.1.chunks() + self.2.chunks() + self.3.chunks() + self.4.chunks() + self.5.chunks() + self.6.chunks(), self.7.chunks());
            lemma_chunk_seq_wf_concat(self.0.chunks(), self.1.chunks());
            lemma_chunk_seq_wf_concat(self.0.chunks() + self.1.chunks(), self.2.chunks());
            lemma_chunk_seq_wf_concat(self.0.chunks() + self.1.chunks() + self.2.chunks(), self.3.chunks());
            lemma_chunk_seq_wf_concat(self.0.chunks() + self.1.chunks() + self.2.chunks() + self.3.chunks(), self.4.chunks());
            lemma_chunk_seq_wf_concat(self.0.chunks() + self.1.chunks() + self.2.chunks() + self.3.chunks() + self.4.chunks(), self.5.chunks());
            lemma_chunk_seq_wf_concat(self.0.chunks() + self.1.chunks() + self.2.chunks() + self.3.chunks() + self.4.chunks() + self.5.chunks(), self.6.chunks());
            lemma_chunk_seq_wf_concat(self.0.chunks() + self.1.chunks() + self.2.chunks() + self.3.chunks() + self.4.chunks() + self.5.chunks() + self.6.chunks(), self.7.chunks());
        }
        v
    }
}

impl<A: Element, B: Element, C: Element, D: Element, E: Element, F: Element, G: Element, H: Element, I: Element> Element for (A, B, C, D, E, F, G, H, I) {
    open spec fn wf(&self) -> bool {
        &&& self.0.wf()
        &&& self.1.wf()
        &&& self.2.wf()
        &&& self.3.wf()
        &&& self.4.wf()
        &&& self.5.wf()
        &&& self.6.wf()
        &&& self.7.wf()
        &&& self.8.wf()
        &&& self.spec_width() <= usize::MAX as nat
    }

    open spec fn spec_width(&self) -> nat {
        self.0.spec_width() + self.1.spec_width() + self.2.spec_width() + self.3.spec_width() + self.4.spec_width() + self.5.spec_width() + self.6.spec_width() + self.7.spec_width() + self.8.spec_width()
    }

    open spec fn chunks(&self) -> Seq<Chunk> {
        self.0.chunks() + self.1.chunks() + self.2.chunks() + self.3.chunks() + self.4.chunks() + self.5.chunks() + self.6.chunks() + self.7.chunks() + self.8.chunks()
    }

    fn width(&self) -> (w: usize) {
        self.0.width() + self.1.width() + self.2.width() + self.3.width() + self.4.width() + self.5.width() + self.6.width() + self.7.width() + self.8.width()
    }

    fn render(&self) -> (v: Vec<RenderChunk>) {
        let mut v = self.0.render();
        let mut v1 = self.1.render();
        let mut v2 = self.2.render();
        let mut v3 = self.3.render();
        let mut v4 = self.4.render();
        let mut v5 = self.5.render();
        let mut v6 = self.6.render();
        let mut v7 = self.7.render();
        let mut v8 = self.8.render();
        v.append(&mut v1);
        v.append(&mut v2);
        v.append(&mut v3);
        v.append(&mut v4);
        v.append(&mut v5);
        v.append(&mut v6);
        v.append(&mut v7);
        v.append(&mut v8);
        proof {
            assert(v.deep_view() =~= self.chunks());
            lemma_total_width_concat(self.0.chunks(), self.1.chunks());
            lemma_total_width_concat(self.0.chunks() + self.1.chunks(), self.2.chunks());
            lemma_total_width_concat(self.0.chunks() + self.1.chunks() + self.2.chunks(), self.3.chunks());
            lemma_total_width_concat(self.0.chunks() + self.1.chunks() + self.2.chunks() + self.3.chunks(), self.4.chunks());
            lemma_total_width_concat(self.0.chunks() + self.1.chunks() + self.2.chunks() + self.3.chunks() + self.4.chunks(), self.5.chunks());
            lemma_total_width_concat(self.0.chunks() + self.1.chunks() + self.2.chunks() + self.3.chunks() + self.4.chunks() + self.5.chunks(), self.6.chunks());
            lemma_total_width_concat(self.0.chunks() + self.1.chunks() + self.2.chunks() + self.3.chunks() + self.4.chunks() + self.5.chunks() + self.6.chunks(), self.7.chunks());
            lemma_total_width_concat(self.0.chunks() + self.1.chunks() + self.2.chunks() + self.3.chunks() + self.4.chunks() + self.5.chunks() + self.6.chunks() + self.7.chunks(), self.8.chunks());
            lemma_chunk_seq_wf_concat(self.0.chunks(), self.1.chunks());
            lemma_chunk_seq_wf_concat(self.0.chunks() + self.1.chunks(), self.2.chunks());
            lemma_chunk_seq_wf_concat(self.0.chunks() + self.1.chunks() + self.2.chunks(), self.3.chunks());
            lemma_chunk_seq_wf_concat(self.0.chunks() + self.1.chunks() + self.2.chunks() + self.3.chunks(), self.4.chunks());
            lemma_chunk_seq_wf_concat(self.0.chunks() + self.1.chunks() + self.2.chunks() + self.3.chunks() + self.4.chunks(), self.5.chunks());
            lemma_chunk_seq_wf_concat(self.0.chunks() + self.1.chunks() + self.2.chunks() + self.3.chunks() + self.4.chunks() + self.5.chunks(), self.6.chunks());
            lemma_chunk_seq_wf_concat(self.0.chunks() + self.1.chunks() + self.2.chunks() + self.3.chunks() + self.4.chunks() + self.5.chunks() + self.6.chunks(), self.7.chunks());
            lemma_chunk_seq_wf_concat(self.0.chunks() + self.1.chunks() + self.2.chunks() + self.3.chunks() + self.4.chunks() + self.5.chunks() + self.6.chunks() + self.7.chunks(), self.8.chunks());
        }
        v
    }
}

impl<A: Element, B: Element, C: Element, D: Element, E: Element, F: Element, G: Element, H: Element, I: Element, J: Element> Element for (A, B, C, D, E, F, G, H, I, J) {
    open spec fn wf(&self) -> bool {
        &&& self.0.wf()
        &&& self.1.wf()
        &&& self.2.wf()
        &&& self.3.wf()
        &&& self.4.wf()
        &&& self.5.wf()
        &&& self.6.wf()
        &&& self.7.wf()
        &&& self.8.wf()
        &&& self.9.wf()
        &&& self.spec_width() <= usize::MAX as nat
    }

    open spec fn spec_width(&self) -> nat {
        self.0.spec_width() + self.1.spec_width() + self.2.spec_width() + self.3.spec_width() + self.4.spec_width() + self.5.spec_width() + self.6.spec_width() + self.7.spec_width() + self.8.spec_width() + self.9.spec_width()
    }

    open spec fn chunks(&self) -> Seq<Chunk> {
        self.0.chunks() + self.1.chunks() + self.2.chunks() + self.3.chunks() + self.4.chunks() + self.5.chunks() + self.6.chunks() + self.7.chunks() + self.8.chunks() + self.9.chunks()
    }

    fn width(&self) -> (w: usize) {
        self.0.width() + self.1.width() + self.2.width() + self.3.width() + self.4.width() + self.5.width() + self.6.width() + self.7.width() + self.8.width() + self.9.width()
    }

    fn render(&self) -> (v: Vec<RenderChunk>) {
        let mut v = self.0.render();
        let mut v1 = self.1.render();
        let mut v2 = self.2.render();
        let mut v3 = self.3.render();
        let mut v4 = self.4.render();
        let mut v5 = self.5.render();
        let mut v6 = self.6.render();
        let mut v7 = self.7.render();
        let mut v8 = self.8.render();
        let mut v9 = self.9.render();
        v.append(&mut v1);
        v.append(&mut v2);
        v.append(&mut v3);
        v.append(&mut v4);
        v.append(&mut v5);
        v.append(&mut v6);
        v.append(&mut v7);
        v.append(&mut v8);
        v.append(&mut v9);
        proof {
            assert(v.deep_view() =~= self.chunks());
            lemma_total_width_concat(self.0.chunks(), self.1.chunks());
            lemma_total_width_concat(self.0.chunks() + self.1.chunks(), self.2.chunks());
            lemma_total_width_concat(self.0.chunks() + self.1.chunks() + self.2.chunks(), self.3.chunks());
            lemma_total_width_concat(self.0.chunks() + self.1.chunks() + self.2.chunks() + self.3.chunks(), self.4.chunks());
            lemma_total_width_concat(self.0.chunks() + self.1.chunks() + self.2.chunks() + self.3.chunks() + self.4.chunks(), self.5.chunks());
            lemma_total_width_concat(self.0.chunks() + self.1.chunks() + self.2.chunks() + self.3.chunks() + self.4.chunks() + self.5.chunks(), self.6.chunks());
            lemma_total_width_concat(self.0.chunks() + self.1.chunks() + self.2.chunks() + self.3.chunks() + self.4.chunks() + self.5.chunks() + self.6.chunks(), self.7.chunks());
            lemma_total_width_concat(self.0.chunks() + self.1.chunks() + self.2.chunks() + self.3.chunks() + self.4.chunks() + self.5.chunks() + self.6.chunks() + self.7.chunks(), self.8.chunks());
            lemma_total_width_concat(self.0.chunks() + self.1.chunks() + self.2.chunks() + self.3.chunks() + self.4.chunks() + self.5.chunks() + self.6.chunks() + self.7.chunks() + self.8.chunks(), self.9.chunks());
            lemma_chunk_seq_wf_concat(self.0.chunks(), self.1.chunks());
            lemma_chunk_seq_wf_concat(self.0.chunks() + self.1.chunks(), self.2.chunks());
            lemma_chunk_seq_wf_concat(self.0.chunks() + self.1.chunks() + self.2.chunks(), self.3.chunks());
            lemma_chunk_seq_wf_concat(self.0.chunks() + self.1.chunks() + self.2.chunks() + self.3.chunks(), self.4.chunks());
            lemma_chunk_seq_wf_concat(self.0.chunks() + self.1.chunks() + self.2.chunks() + self.3.chunks() + self.4.chunks(), self.5.chunks());
            lemma_chunk_seq_wf_concat(self.0.chunks() + self.1.chunks() + self.2.chunks() + self.3.chunks() + self.4.chunks() + self.5.chunks(), self.6.chunks());
            lemma_chunk_seq_wf_concat(self.0.chunks() + self.1.chunks() + self.2.chunks() + self.3.chunks() + self.4.chunks() + self.5.chunks() + self.6.chunks(), self.7.chunks());
            lemma_chunk_seq_wf_concat(self.0.chunks() + self.1.chunks() + self.2.chunks() + self.3.chunks() + self.4.chunks() + self.5.chunks() + self.6.chunks() + self.7.chunks(), self.8.chunks());
            lemma_chunk_seq_wf_concat(self.0.chunks() + self.1.chunks() + self.2.chunks() + self.3.chunks() + self.4.chunks() + self.5.chunks() + self.6.chunks() + self.7.chunks() + self.8.chunks(), self.9.chunks());
        }
        v
    }
}

} // verus!
