use vstd::prelude::*;

use crate::display_width;
use crate::element::Element;
use crate::element::gap::{Gap, gap_chunks, lemma_gap_chunks_width};
use crate::render::{
    Chunk, RenderChunk, chunk_seq_wf, chunk_wf, lemma_chunk_seq_wf_concat,
    lemma_chunk_seq_wf_reverse, lemma_total_width_concat, lemma_total_width_reverse,
    lemma_total_width_singleton, total_width,
};
use vstd::string::StrSliceExecFns;

verus! {

/// The alignment or padding applied to a [`FixedWidth`] element.
#[derive(Debug, Clone, Copy, PartialEq, Eq)]
pub enum Direction {
    /// Left (start).
    Left,
    /// Right (end).
    Right,
}

/// The number of characters kept when a chunk's text is cut to a prefix
/// that fits in `b` columns: prefix lengths are tried in increasing order,
/// starting after `j` accepted characters, and the scan stops before the
/// first prefix that is too wide. The whole text is never kept, since the
/// scan is only used on chunks that are known to overflow.
pub open spec fn fit_prefix_len(t: Seq<char>, b: nat, j: nat) -> nat
    decreases t.len() - j,
{
    if j + 1 < t.len() && display_width(t.subrange(0, j as int + 1)) <= b {
        fit_prefix_len(t, b, (j + 1) as nat)
    } else {
        j
    }
}

/// The number of characters kept when a chunk's text is cut to a suffix
/// that fits in `b` columns, scanned from the end in the same way.
pub open spec fn fit_suffix_len(t: Seq<char>, b: nat, j: nat) -> nat
    decreases t.len() - j,
{
    if j < t.len() && display_width(t.subrange(t.len() - j - 1, t.len() as int)) <= b {
        fit_suffix_len(t, b, (j + 1) as nat)
    } else {
        j
    }
}

/// The chunk that remains when `c` is cut at the end to fit `b` columns.
pub open spec fn trunc_end_chunk(c: Chunk, b: nat) -> Chunk {
    let j = fit_prefix_len(c.text, b, 0);
    Chunk {
        text: c.text.subrange(0, j as int),
        width: if j == 0 {
            0
        } else {
            display_width(c.text.subrange(0, j as int))
        },
        style: c.style,
        cursor: false,
    }
}

/// The chunk that remains when `c` is cut at the start to fit `b` columns.
pub open spec fn trunc_start_chunk(c: Chunk, b: nat) -> Chunk {
    let j = fit_suffix_len(c.text, b, 0);
    Chunk {
        text: c.text.subrange(c.text.len() - j, c.text.len() as int),
        width: if j == 0 {
            0
        } else {
            display_width(c.text.subrange(c.text.len() - j, c.text.len() as int))
        },
        style: c.style,
        cursor: false,
    }
}

/// The chunks kept when a sequence is consumed in order against a budget
/// of `b` columns: whole chunks are kept while they fit, the first chunk
/// that overflows a nonzero remaining budget is cut to fit it (at the end
/// for a rightward cut, at the start for a leftward one), and everything
/// after the overflow is dropped.
pub open spec fn take_chunks(cs: Seq<Chunk>, b: nat, side: Direction) -> Seq<Chunk>
    decreases cs.len(),
{
    if cs.len() == 0 {
        Seq::empty()
    } else {
        let c = cs.first();
        if c.width <= b {
            seq![c] + take_chunks(cs.drop_first(), (b - c.width) as nat, side)
        } else if b > 0 {
            match side {
                Direction::Right => seq![trunc_end_chunk(c, b)],
                Direction::Left => seq![trunc_start_chunk(c, b)],
            }
        } else {
            Seq::empty()
        }
    }
}

/// The gap filler, placed on the padding side. Pushing the filler chunks
/// to the front one at a time reverses their order.
pub open spec fn pad_chunks(body: Seq<Chunk>, gap: nat, side: Direction) -> Seq<Chunk> {
    match side {
        Direction::Left => gap_chunks(gap).reverse() + body,
        Direction::Right => body + gap_chunks(gap),
    }
}

/// The scan for a fitting prefix accepts only prefixes that fit, and never
/// the whole text.
pub proof fn lemma_fit_prefix_len(t: Seq<char>, b: nat, j: nat)
    requires
        j < t.len(),
        j >= 1 ==> display_width(t.subrange(0, j as int)) <= b,
    ensures
        j <= fit_prefix_len(t, b, j) < t.len(),
        fit_prefix_len(t, b, j) >= 1 ==> display_width(
            t.subrange(0, fit_prefix_len(t, b, j) as int),
        ) <= b,
    decreases t.len() - j,
{
    if j + 1 < t.len() && display_width(t.subrange(0, j as int + 1)) <= b {
        lemma_fit_prefix_len(t, b, (j + 1) as nat);
    }
}

/// The scan for a fitting suffix accepts only suffixes that fit.
pub proof fn lemma_fit_suffix_len(t: Seq<char>, b: nat, j: nat)
    requires
        j <= t.len(),
        j >= 1 ==> display_width(t.subrange(t.len() - j, t.len() as int)) <= b,
    ensures
        j <= fit_suffix_len(t, b, j) <= t.len(),
        fit_suffix_len(t, b, j) >= 1 ==> display_width(
            t.subrange(t.len() - fit_suffix_len(t, b, j), t.len() as int),
        ) <= b,
    decreases t.len() - j,
{
    if j < t.len() && display_width(t.subrange(t.len() - j - 1, t.len() as int)) <= b {
        lemma_fit_suffix_len(t, b, (j + 1) as nat);
    }
}

/// What is taken against a budget never exceeds the budget.
pub proof fn lemma_take_chunks_width(cs: Seq<Chunk>, b: nat, side: Direction)
    ensures
        total_width(take_chunks(cs, b, side)) <= b,
    decreases cs.len(),
{
    if cs.len() == 0 {
    } else {
        let c = cs.first();
        if c.width <= b {
            lemma_take_chunks_width(cs.drop_first(), (b - c.width) as nat, side);
            lemma_total_width_concat(seq![c], take_chunks(cs.drop_first(), (b - c.width) as nat, side));
            lemma_total_width_singleton(c);
        } else if b > 0 {
            match side {
                Direction::Right => {
                    let tc = trunc_end_chunk(c, b);
                    if c.text.len() > 0 {
                        lemma_fit_prefix_len(c.text, b, 0);
                    }
                    lemma_total_width_singleton(tc);
                },
                Direction::Left => {
                    let tc = trunc_start_chunk(c, b);
                    lemma_fit_suffix_len(c.text, b, 0);
                    lemma_total_width_singleton(tc);
                },
            }
        }
    }
}

/// An element that pads or truncates its contents to a constant width.
#[derive(Debug, Clone)]
pub struct FixedWidth<E, T = ()> {
    /// The width the content is forced to occupy, in columns.
    pub width: usize,
    /// The side on which content is cut when it is too wide.
    pub truncate: Direction,
    /// The side on which blank filler is added when the content is too
    /// narrow.
    pub pad: Direction,
    /// The content element.
    pub content: E,
    /// The element displayed in place of what was cut when truncation
    /// occurs. Its width must not exceed `width`.
    pub truncation: T,
}

impl<E: Element> FixedWidth<E, ()> {
    /// Creates a new [`FixedWidth`] with the specified width and content.
    pub fn new(width: usize, content: E) -> (r: FixedWidth<E, ()>)
        ensures
            r.width == width,
            r.truncate == Direction::Right,
            r.pad == Direction::Right,
            r.content == content,
    {
        FixedWidth {
            width,
            truncate: Direction::Right,
            pad: Direction::Right,
            content,
            truncation: (),
        }
    }
}

impl<E: Element, T: Element> FixedWidth<E, T> {
    /// Changes the side on which the content is truncated.
    ///
    /// This option only takes effect if the content is wider than the width.
    pub fn truncated(self, truncate: Direction) -> (r: Self)
        ensures
            r.width == self.width,
            r.truncate == truncate,
            r.pad == self.pad,
            r.content == self.content,
            r.truncation == self.truncation,
    {
        let mut r = self;
        r.truncate = truncate;
        r
    }

    /// Changes the side on which padding is added.
    ///
    /// This option only takes effect if the content is narrower than the width.
    pub fn padded(self, pad: Direction) -> (r: Self)
        ensures
            r.width == self.width,
            r.truncate == self.truncate,
            r.pad == pad,
            r.content == self.content,
            r.truncation == self.truncation,
    {
        let mut r = self;
        r.pad = pad;
        r
    }

    /// Changes the element displayed when truncation occurs.
    ///
    /// This option only takes effect if the content is wider than the width.
    /// When this happens, this element is displayed on the side that is
    /// truncated. This element's width must not exceed the width of the
    /// `FixedWidth`.
    pub fn truncated_with<U: Element>(self, truncation: U) -> (r: FixedWidth<E, U>)
        ensures
            r.width == self.width,
            r.truncate == self.truncate,
            r.pad == self.pad,
            r.content == self.content,
            r.truncation == truncation,
    {
        FixedWidth {
            width: self.width,
            truncate: self.truncate,
            pad: self.pad,
            content: self.content,
            truncation,
        }
    }

    /// Walks the content chunks in the given order, keeping what fits
    /// beside the truncation marker, and returns the kept chunks together
    /// with the number of blank columns still owed.
    fn render_impl(&self, content: Vec<RenderChunk>, side: Direction) -> (res: (
        Vec<RenderChunk>,
        usize,
    ))
        requires
            self.content.wf(),
            self.truncation.wf(),
            self.truncation.spec_width() <= self.width as nat,
            content.deep_view().len() == self.content.chunks().len(),
            total_width(content.deep_view()) == self.content.spec_width(),
            chunk_seq_wf(content.deep_view()),
        ensures
            ({
                let out = res.0.deep_view();
                let gap = res.1 as nat;
                let cw = self.content.spec_width();
                let w = self.width as nat;
                let mw = self.truncation.spec_width();
                &&& chunk_seq_wf(out)
                &&& if cw <= w {
                    &&& out == content.deep_view()
                    &&& gap == w - cw
                } else {
                    let taken = take_chunks(content.deep_view(), (w - mw) as nat, side);
                    &&& out == taken + self.truncation.chunks()
                    &&& gap == w - (mw + total_width(taken))
                    &&& mw + total_width(taken) <= w
                    &&& total_width(self.truncation.chunks()) == mw
                }
            }),
    {
        let full_content_width = self.content.width();
        if full_content_width <= self.width {
            // Entire content fits.
            return (content, self.width - full_content_width);
        }
        let ghost orig = content.deep_view();
        let ghost w = self.width as nat;
        let ghost mw = self.truncation.spec_width();
        let ghost b0 = (w - mw) as nat;

        let mut rest = content;
        let mut result: Vec<RenderChunk> = Vec::new();
        let mut accumulated = self.truncation.width();
        proof {
            assert(result.deep_view() =~= Seq::<Chunk>::empty());
            assert(take_chunks(orig, b0, side) =~= result.deep_view() + take_chunks(
                rest.deep_view(),
                b0,
                side,
            ));
        }
        loop
            invariant_except_break
                take_chunks(orig, b0, side) == result.deep_view() + take_chunks(
                    rest.deep_view(),
                    (w - accumulated as nat) as nat,
                    side,
                ),
            invariant
                self.truncation.wf(),
                mw == self.truncation.spec_width(),
                w == self.width as nat,
                mw <= w,
                b0 == (w - mw) as nat,
                accumulated as nat == mw + total_width(result.deep_view()),
                accumulated <= self.width,
                chunk_seq_wf(result.deep_view()),
                chunk_seq_wf(rest.deep_view()),
            ensures
                result.deep_view() == take_chunks(orig, b0, side),
                accumulated as nat == mw + total_width(take_chunks(orig, b0, side)),
                accumulated <= self.width,
                chunk_seq_wf(result.deep_view()),
            decreases rest.len(),
        {
            if rest.len() == 0 {
                proof {
                    assert(take_chunks(rest.deep_view(), (w - accumulated as nat) as nat, side)
                        =~= Seq::<Chunk>::empty());
                    assert(result.deep_view() + Seq::<Chunk>::empty() =~= result.deep_view());
                    lemma_total_width_concat(
                        result.deep_view(),
                        Seq::<Chunk>::empty(),
                    );
                }
                break;
            }
            let ghost rest_views = rest.deep_view();
            let item = rest.remove(0);
            proof {
                assert(rest.deep_view() =~= rest_views.drop_first());
                assert(item@ == rest_views.first());
            }
            let available = self.width - accumulated;
            if item.width > available {
                let ghost before = result.deep_view();
                if available > 0 {
                    let truncated_item = match side {
                        Direction::Right => truncate_end(&item, available),
                        Direction::Left => truncate_start(&item, available),
                    };
                    proof {
                        lemma_total_width_concat(before, seq![truncated_item@]);
                        lemma_total_width_singleton(truncated_item@);
                    }
                    accumulated = accumulated + truncated_item.width;
                    result.push(truncated_item);
                    proof {
                        assert(result.deep_view() =~= before + seq![truncated_item@]);
                    }
                }
                proof {
                    assert(take_chunks(rest_views, (w - (mw + total_width(before))) as nat, side)
                        == if available > 0 {
                            match side {
                                Direction::Right => seq![
                                    trunc_end_chunk(rest_views.first(), (available as nat)),
                                ],
                                Direction::Left => seq![
                                    trunc_start_chunk(rest_views.first(), (available as nat)),
                                ],
                            }
                        } else {
                            Seq::<Chunk>::empty()
                        });
                    assert(result.deep_view() =~= take_chunks(orig, b0, side));
                    lemma_total_width_concat(
                        before,
                        take_chunks(rest_views, (available as nat), side),
                    );
                }
                break;
            } else {
                let ghost before = result.deep_view();
                proof {
                    lemma_total_width_concat(before, seq![item@]);
                    lemma_total_width_singleton(item@);
                }
                accumulated = accumulated + item.width;
                result.push(item);
                proof {
                    assert(result.deep_view() =~= before + seq![rest_views.first()]);
                    assert(take_chunks(rest_views, (w - (mw + total_width(before))) as nat, side)
                        =~= seq![rest_views.first()] + take_chunks(
                        rest.deep_view(),
                        (w - accumulated as nat) as nat,
                        side,
                    ));
                    assert(take_chunks(orig, b0, side) =~= result.deep_view() + take_chunks(
                        rest.deep_view(),
                        (w - accumulated as nat) as nat,
                        side,
                    ));
                }
            }
        }
        let ghost taken = take_chunks(orig, b0, side);
        let mut marker = self.truncation.render();
        let ghost marker_views = marker.deep_view();
        result.append(&mut marker);
        proof {
            assert(result.deep_view() =~= taken + marker_views);
            lemma_chunk_seq_wf_concat(taken, marker_views);
        }
        (result, self.width - accumulated)
    }
}

impl<E: Element, T: Element> Element for FixedWidth<E, T> {
    open spec fn wf(&self) -> bool {
        &&& self.content.wf()
        &&& self.truncation.wf()
        &&& self.truncation.spec_width() <= self.width as nat
    }

    open spec fn spec_width(&self) -> nat {
        self.width as nat
    }

    open spec fn chunks(&self) -> Seq<Chunk> {
        let w = self.width as nat;
        let cw = self.content.spec_width();
        if cw <= w {
            pad_chunks(self.content.chunks(), (w - cw) as nat, self.pad)
        } else {
            let mw = self.truncation.spec_width();
            let b = if mw <= w {
                (w - mw) as nat
            } else {
                0
            };
            let taken = match self.truncate {
                Direction::Right => take_chunks(self.content.chunks(), b, Direction::Right),
                Direction::Left => take_chunks(
                    self.content.chunks().reverse(),
                    b,
                    Direction::Left,
                ),
            };
            let body = match self.truncate {
                Direction::Right => taken + self.truncation.chunks(),
                Direction::Left => (taken + self.truncation.chunks()).reverse(),
            };
            let consumed = mw + total_width(taken);
            let gap = if consumed <= w {
                (w - consumed) as nat
            } else {
                0
            };
            pad_chunks(body, gap, self.pad)
        }
    }

    fn width(&self) -> (w: usize) {
        self.width
    }

    #[verifier::rlimit(60)]
    fn render(&self) -> (v: Vec<RenderChunk>) {
        let ghost w = self.width as nat;
        let ghost cw = self.content.spec_width();
        let ghost mw = self.truncation.spec_width();
        let (result, gap) = match self.truncate {
            Direction::Right => {
                let content = self.content.render();
                self.render_impl(content, Direction::Right)
            },
            Direction::Left => {
                let content = self.content.render();
                let content_rev = reversed(content);
                proof {
                    lemma_total_width_reverse(self.content.chunks());
                    lemma_chunk_seq_wf_reverse(self.content.chunks());
                    assert(content_rev.deep_view() =~= self.content.chunks().reverse());
                }
                let (r, inner_gap) = self.render_impl(content_rev, Direction::Left);
                let r_rev = reversed(r);
                proof {
                    assert(r_rev.deep_view() =~= r.deep_view().reverse());
                    lemma_total_width_reverse(r.deep_view());
                    lemma_chunk_seq_wf_reverse(r.deep_view());
                    if cw <= w {
                        assert(r_rev.deep_view() =~= self.content.chunks());
                    }
                }
                (r_rev, inner_gap)
            },
        };
        let ghost body = result.deep_view();
        proof {
            // The body of the output and the columns still owed, in both
            // the fitting and the truncating case.
            if cw <= w {
                assert(body == self.content.chunks());
                assert(gap as nat == (w - cw) as nat);
            } else {
                let b = (w - mw) as nat;
                let taken = match self.truncate {
                    Direction::Right => take_chunks(self.content.chunks(), b, Direction::Right),
                    Direction::Left => take_chunks(
                        self.content.chunks().reverse(),
                        b,
                        Direction::Left,
                    ),
                };
                assert(gap as nat == w - (mw + total_width(taken)));
            }
        }
        let mut result = result;
        match self.pad {
            Direction::Left => {
                let mut g = Gap(gap).render();
                let ghost gv = g.deep_view();
                proof {
                    assert(gv == gap_chunks(gap as nat));
                    assert(g.deep_view() =~= gv.skip(0));
                    assert(result.deep_view() =~= gv.take(0).reverse() + body);
                }
                while g.len() > 0
                    invariant
                        g@.len() <= gv.len(),
                        g.deep_view() == gv.skip(gv.len() - g@.len()),
                        result.deep_view() == gv.take(gv.len() - g@.len()).reverse() + body,
                    decreases g.len(),
                {
                    let ghost k = (gv.len() - g@.len()) as int;
                    let ghost gpre = g@;
                    let ghost rpre = result.deep_view();
                    let x = g.remove(0);
                    proof {
                        assert(x == gpre[0]);
                        assert(x@ == gpre[0]@);
                        assert(gpre[0]@ == gv.skip(k)[0]);
                        assert(x@ == gv[k]);
                        assert(g@ =~= gpre.drop_first());
                        assert forall|i: int| 0 <= i < g@.len() implies g.deep_view()[i]
                            == gv.skip(k + 1)[i] by {
                            assert(g@[i]@ == gpre[i + 1]@);
                            assert(gpre[i + 1]@ == gv.skip(k)[i + 1]);
                        }
                        assert(g.deep_view() =~= gv.skip(k + 1));
                    }
                    let ghost rvec = result@;
                    result.insert(0, x);
                    proof {
                        let tgt = gv.take(k + 1).reverse() + body;
                        assert(0 <= k < gv.len());
                        assert(gv.take(k).reverse().len() == k);
                        assert(gv.take(k + 1).reverse().len() == k + 1);
                        assert(rpre == gv.take(k).reverse() + body);
                        assert forall|i: int| 0 <= i < result.deep_view().len() implies result.deep_view()[i] == tgt[i] by {
                            if i == 0 {
                                assert(result@[0] == x);
                                assert(tgt[0] == gv.take(k + 1).reverse()[0]);
                                assert(gv.take(k + 1).reverse()[0] == gv.take(k + 1)[k]);
                            } else if i <= k {
                                assert(result@[i] == rvec[i - 1]);
                                assert(result.deep_view()[i] == rpre[i - 1]);
                                assert(rpre[i - 1] == gv.take(k).reverse()[i - 1]);
                                assert(gv.take(k).reverse()[i - 1] == gv.take(k)[k - i]);
                                assert(tgt[i] == gv.take(k + 1).reverse()[i]);
                                assert(gv.take(k + 1).reverse()[i] == gv.take(k + 1)[k - i]);
                            } else {
                                assert(result@[i] == rvec[i - 1]);
                                assert(result.deep_view()[i] == rpre[i - 1]);
                                assert(rpre.len() == k + body.len());
                                assert(tgt.len() == k + 1 + body.len());
                                assert(result.deep_view().len() == rpre.len() + 1);
                                assert(k <= i - 1 < rpre.len());
                                assert((gv.take(k).reverse() + body)[i - 1] == body[i - 1 - k]);
                                assert((gv.take(k + 1).reverse() + body)[i] == body[i - (k + 1)]);
                            }
                        }
                        assert(result.deep_view() =~= tgt);
                    }
                }
                proof {
                    assert(result.deep_view() =~= gv.reverse() + body);
                }
            },
            Direction::Right => {
                let mut g = Gap(gap).render();
                proof {
                    assert(g.deep_view() == gap_chunks(gap as nat));
                }
                result.append(&mut g);
                proof {
                    assert(result.deep_view() =~= body + gap_chunks(gap as nat));
                }
            },
        }
        proof {
            self.lemma_render_model(body, gap as nat);
        }
        result
    }
}

impl<E: Element, T: Element> FixedWidth<E, T> {
    /// Padding the computed body with the owed blank columns yields
    /// exactly the element's modeled chunks, which are well-formed and
    /// occupy exactly the fixed width.
    proof fn lemma_render_model(&self, body: Seq<Chunk>, gap: nat)
        requires
            self.wf(),
            chunk_seq_wf(body),
            chunk_seq_wf(gap_chunks(gap)),
            ({
                let w = self.width as nat;
                let cw = self.content.spec_width();
                let mw = self.truncation.spec_width();
                if cw <= w {
                    &&& body == self.content.chunks()
                    &&& gap == w - cw
                    &&& total_width(self.content.chunks()) == cw
                } else {
                    let b = (w - mw) as nat;
                    let taken = match self.truncate {
                        Direction::Right => take_chunks(
                            self.content.chunks(),
                            b,
                            Direction::Right,
                        ),
                        Direction::Left => take_chunks(
                            self.content.chunks().reverse(),
                            b,
                            Direction::Left,
                        ),
                    };
                    &&& (match self.truncate {
                        Direction::Right => body == taken + self.truncation.chunks(),
                        Direction::Left => body == (taken + self.truncation.chunks()).reverse(),
                    })
                    &&& gap == w - (mw + total_width(taken))
                    &&& mw + total_width(taken) <= w
                    &&& total_width(self.truncation.chunks()) == mw
                }
            }),
        ensures
            pad_chunks(body, gap, self.pad) == self.chunks(),
            chunk_seq_wf(self.chunks()),
            total_width(self.chunks()) == self.spec_width(),
    {
        let w = self.width as nat;
        let cw = self.content.spec_width();
        let mw = self.truncation.spec_width();
        if cw <= w {
            assert(total_width(body) == cw);
        } else {
            let b = (w - mw) as nat;
            let taken = match self.truncate {
                Direction::Right => take_chunks(self.content.chunks(), b, Direction::Right),
                Direction::Left => take_chunks(
                    self.content.chunks().reverse(),
                    b,
                    Direction::Left,
                ),
            };
            lemma_total_width_concat(taken, self.truncation.chunks());
            match self.truncate {
                Direction::Right => {},
                Direction::Left => {
                    lemma_total_width_reverse(taken + self.truncation.chunks());
                },
            }
            assert(total_width(body) == total_width(taken) + mw);
        }
        lemma_gap_chunks_width(gap);
        match self.pad {
            Direction::Left => {
                lemma_total_width_reverse(gap_chunks(gap));
                lemma_total_width_concat(gap_chunks(gap).reverse(), body);
                lemma_chunk_seq_wf_reverse(gap_chunks(gap));
                lemma_chunk_seq_wf_concat(gap_chunks(gap).reverse(), body);
            },
            Direction::Right => {
                lemma_total_width_concat(body, gap_chunks(gap));
                lemma_chunk_seq_wf_concat(body, gap_chunks(gap));
            },
        }
    }
}

impl<E: Element, T: Element> FixedWidth<E, T> {
    /// Identity: when the content is exactly as wide as the fixed width,
    /// the element renders to the content's chunks unchanged.
    pub proof fn lemma_identity(&self)
        requires
            self.wf(),
            self.content.spec_width() == self.width as nat,
        ensures
            self.chunks() == self.content.chunks(),
    {
        assert(gap_chunks(0) == Seq::<Chunk>::empty());
        assert(gap_chunks(0).reverse() =~= Seq::<Chunk>::empty());
        assert(Seq::<Chunk>::empty() + self.content.chunks() =~= self.content.chunks());
        assert(self.content.chunks() + Seq::<Chunk>::empty() =~= self.content.chunks());
    }

    /// Padding: when the content is narrower than the fixed width, the
    /// element renders to the content's chunks plus a blank filler of
    /// exactly the missing columns, on the configured side.
    pub proof fn lemma_padding(&self)
        requires
            self.wf(),
            self.content.spec_width() < self.width as nat,
        ensures
            ({
                let gap = (self.width as nat - self.content.spec_width()) as nat;
                &&& total_width(gap_chunks(gap)) == gap
                &&& self.chunks() == (match self.pad {
                    Direction::Left => gap_chunks(gap).reverse() + self.content.chunks(),
                    Direction::Right => self.content.chunks() + gap_chunks(gap),
                })
            }),
    {
        let gap = (self.width as nat - self.content.spec_width()) as nat;
        lemma_gap_chunks_width(gap);
    }

    /// Truncation: when the content is wider than the fixed width, the
    /// element still occupies exactly the fixed width — the output never
    /// exceeds the target. Text is only ever cut between characters, so no
    /// multi-byte character is split. The marker's rendered chunks are
    /// assumed to occupy the marker's width, which rendering guarantees.
    pub proof fn lemma_truncation(&self)
        requires
            self.wf(),
            self.content.spec_width() > self.width as nat,
            total_width(self.truncation.chunks()) == self.truncation.spec_width(),
        ensures
            total_width(self.chunks()) == self.spec_width(),
    {
        let w = self.width as nat;
        let mw = self.truncation.spec_width();
        let b = (w - mw) as nat;
        let taken = match self.truncate {
            Direction::Right => take_chunks(self.content.chunks(), b, Direction::Right),
            Direction::Left => take_chunks(self.content.chunks().reverse(), b, Direction::Left),
        };
        match self.truncate {
            Direction::Right => {
                lemma_take_chunks_width(self.content.chunks(), b, Direction::Right);
            },
            Direction::Left => {
                lemma_take_chunks_width(self.content.chunks().reverse(), b, Direction::Left);
            },
        }
        lemma_total_width_concat(taken, self.truncation.chunks());
        match self.truncate {
            Direction::Right => {},
            Direction::Left => {
                lemma_total_width_reverse(taken + self.truncation.chunks());
            },
        }
        let consumed = mw + total_width(taken);
        let gap = (w - consumed) as nat;
        lemma_gap_chunks_width(gap);
        let body = match self.truncate {
            Direction::Right => taken + self.truncation.chunks(),
            Direction::Left => (taken + self.truncation.chunks()).reverse(),
        };
        match self.pad {
            Direction::Left => {
                lemma_total_width_reverse(gap_chunks(gap));
                lemma_total_width_concat(gap_chunks(gap).reverse(), body);
            },
            Direction::Right => {
                lemma_total_width_concat(body, gap_chunks(gap));
            },
        }
    }
}

/// The vector with its chunks in reverse order.
fn reversed(v: Vec<RenderChunk>) -> (r: Vec<RenderChunk>)
    ensures
        r@ == v@.reverse(),
{
    let mut src = v;
    let mut out: Vec<RenderChunk> = Vec::new();
    proof {
        assert(src@ =~= v@.take(src@.len() as int));
        assert(out@ =~= v@.skip(src@.len() as int).reverse());
    }
    while src.len() > 0
        invariant
            src@.len() <= v@.len(),
            src@ == v@.take(src@.len() as int),
            out@ == v@.skip(src@.len() as int).reverse(),
        decreases src.len(),
    {
        let ghost n0 = src@.len() as int;
        let x = src.pop().unwrap();
        proof {
            assert(src@ =~= v@.take(n0 - 1));
            assert(x == v@[n0 - 1]);
        }
        out.push(x);
        proof {
            assert forall|i: int| 0 <= i < out@.len() implies out@[i] == v@.skip(n0 - 1).reverse()[i] by {
                assert(v@.skip(n0 - 1).reverse()[i] == v@[v@.len() - 1 - i]);
                if i < out@.len() - 1 {
                    assert(out@[i] == v@.skip(n0).reverse()[i]);
                    assert(v@.skip(n0).reverse()[i] == v@[v@.len() - 1 - i]);
                }
            }
            assert(out@ =~= v@.skip(n0 - 1).reverse());
        }
    }
    proof {
        assert(out@ =~= v@.reverse());
    }
    out
}

/// Cuts a chunk at its end: the longest scanned prefix of its text whose
/// display width fits `target` remains, cut only at character boundaries.
fn truncate_end(input: &RenderChunk, target: usize) -> (r: RenderChunk)
    ensures
        r@ == trunc_end_chunk(input@, target as nat),
        chunk_wf(r@),
        r.width <= target,
{
    let ghost t = input.value@;
    let n = input.value.as_str().unicode_len();
    let mut j: usize = 0;
    loop
        invariant
            n == t.len(),
            t == input.value@,
            j + 1 <= n || (j == 0 && n == 0),
            fit_prefix_len(t, target as nat, 0) == fit_prefix_len(t, target as nat, j as nat),
            j >= 1 ==> display_width(t.subrange(0, j as int)) <= target as nat,
        ensures
            j as nat == fit_prefix_len(t, target as nat, 0),
            j <= n,
            j >= 1 ==> display_width(t.subrange(0, j as int)) <= target as nat,
        decreases n - j,
    {
        if j + 1 >= n {
            break;
        }
        let prefix = input.value.as_str().substring_char(0, j + 1);
        let prefix_width = crate::width(prefix);
        if prefix_width > target {
            break;
        }
        j = j + 1;
    }
    let kept = input.value.as_str().substring_char(0, j);
    let kept_width = crate::width(kept);
    proof {
        assert(kept@ == t.subrange(0, j as int));
        if j == 0 {
            assert(kept@.len() == 0);
            assert(kept_width == 0);
        }
    }
    RenderChunk { value: kept.to_owned(), width: kept_width, style: input.style, cursor: false }
}

/// Cuts a chunk at its start: the longest scanned suffix of its text whose
/// display width fits `target` remains, cut only at character boundaries.
fn truncate_start(input: &RenderChunk, target: usize) -> (r: RenderChunk)
    ensures
        r@ == trunc_start_chunk(input@, target as nat),
        chunk_wf(r@),
        r.width <= target,
{
    let ghost t = input.value@;
    let n = input.value.as_str().unicode_len();
    let mut j: usize = 0;
    loop
        invariant
            n == t.len(),
            t == input.value@,
            j <= n,
            fit_suffix_len(t, target as nat, 0) == fit_suffix_len(t, target as nat, j as nat),
            j >= 1 ==> display_width(t.subrange(t.len() - j, t.len() as int)) <= target as nat,
        ensures
            j as nat == fit_suffix_len(t, target as nat, 0),
            j <= n,
            j >= 1 ==> display_width(t.subrange(t.len() - j, t.len() as int)) <= target as nat,
        decreases n - j,
    {
        if j >= n {
            break;
        }
        let suffix = input.value.as_str().substring_char(n - j - 1, n);
        let suffix_width = crate::width(suffix);
        if suffix_width > target {
            break;
        }
        j = j + 1;
    }
    let kept = input.value.as_str().substring_char(n - j, n);
    let kept_width = crate::width(kept);
    proof {
        assert(kept@ == t.subrange(t.len() - j, t.len() as int));
        if j == 0 {
            assert(kept@.len() == 0);
            assert(kept_width == 0);
        }
    }
    RenderChunk { value: kept.to_owned(), width: kept_width, style: input.style, cursor: false }
}

} // verus!
