use vstd::prelude::*;

use crate::display_width;
use crate::element::Element;
use crate::style::Style;

verus! {

/// The mathematical model of one rendered chunk: a span of characters, the
/// number of columns it occupies, its resolved style, and whether it is a
/// zero-width cursor marker.
pub ghost struct Chunk {
    /// The characters of the chunk.
    pub text: Seq<char>,
    /// The number of columns the chunk occupies.
    pub width: nat,
    /// The style the chunk is displayed with.
    pub style: Style,
    /// Whether the chunk marks the desired cursor position.
    pub cursor: bool,
}

/// A well-formed chunk: a cursor marker is empty, zero-width and unstyled,
/// and any other chunk's recorded width is the display width of its text.
pub open spec fn chunk_wf(c: Chunk) -> bool {
    &&& c.cursor ==> c.text.len() == 0 && c.width == 0 && c.style == Style::spec_empty()
    &&& !c.cursor ==> c.width == display_width(c.text)
}

/// Every chunk of the sequence is well-formed.
pub open spec fn chunk_seq_wf(s: Seq<Chunk>) -> bool {
    forall|i: int| 0 <= i < s.len() ==> chunk_wf(#[trigger] s[i])
}

/// The total number of columns a sequence of chunks occupies. Cursor
/// markers are zero-width, so they contribute nothing.
pub open spec fn total_width(s: Seq<Chunk>) -> nat
    decreases s.len(),
{
    if s.len() == 0 {
        0
    } else {
        total_width(s.drop_last()) + s.last().width
    }
}

/// Total width distributes over concatenation of chunk sequences.
pub proof fn lemma_total_width_concat(a: Seq<Chunk>, b: Seq<Chunk>)
    ensures
        total_width(a + b) == total_width(a) + total_width(b),
    decreases b.len(),
{
    if b.len() == 0 {
        assert(a + b =~= a);
    } else {
        lemma_total_width_concat(a, b.drop_last());
        assert((a + b).drop_last() =~= a + b.drop_last());
    }
}

/// Well-formedness of chunks is kept under concatenation.
pub proof fn lemma_chunk_seq_wf_concat(a: Seq<Chunk>, b: Seq<Chunk>)
    requires
        chunk_seq_wf(a),
        chunk_seq_wf(b),
    ensures
        chunk_seq_wf(a + b),
{
    assert forall|i: int| 0 <= i < (a + b).len() implies chunk_wf(#[trigger] (a + b)[i]) by {
        if i < a.len() {
            assert((a + b)[i] == a[i]);
        } else {
            assert((a + b)[i] == b[i - a.len()]);
        }
    }
}

/// The width of a single chunk is the total width of its singleton
/// sequence.
pub proof fn lemma_total_width_singleton(c: Chunk)
    ensures
        total_width(seq![c]) == c.width,
{
    assert(seq![c].drop_last() =~= Seq::<Chunk>::empty());
    assert(total_width(Seq::<Chunk>::empty()) == 0);
    assert(total_width(seq![c].drop_last()) == 0);
}

/// Total width can also be decomposed at the front.
pub proof fn lemma_total_width_first(s: Seq<Chunk>)
    requires
        s.len() > 0,
    ensures
        total_width(s) == s.first().width + total_width(s.drop_first()),
{
    assert(s =~= seq![s.first()] + s.drop_first());
    lemma_total_width_concat(seq![s.first()], s.drop_first());
    lemma_total_width_singleton(s.first());
}

/// Reversing a chunk sequence keeps its total width.
pub proof fn lemma_total_width_reverse(s: Seq<Chunk>)
    ensures
        total_width(s.reverse()) == total_width(s),
    decreases s.len(),
{
    if s.len() > 0 {
        lemma_total_width_reverse(s.drop_first());
        assert(s.reverse().drop_last() =~= s.drop_first().reverse());
        assert(s.reverse().last() == s.first());
        lemma_total_width_first(s);
    }
}

/// Reversing a chunk sequence keeps the chunks well-formed.
pub proof fn lemma_chunk_seq_wf_reverse(s: Seq<Chunk>)
    requires
        chunk_seq_wf(s),
    ensures
        chunk_seq_wf(s.reverse()),
{
    assert forall|i: int| 0 <= i < s.reverse().len() implies chunk_wf(
        #[trigger] s.reverse()[i],
    ) by {
        assert(s.reverse()[i] == s[s.len() - i - 1]);
    }
}

/// The model of a text chunk displaying `t` with style `style`.
pub open spec fn text_chunk(t: Seq<char>, style: Style) -> Chunk {
    Chunk { text: t, width: display_width(t), style, cursor: false }
}

/// The model of the cursor-marker chunk.
pub open spec fn cursor_chunk() -> Chunk {
    Chunk { text: Seq::empty(), width: 0, style: Style::spec_empty(), cursor: true }
}

/// A chunk of text with a constant style to be rendered.
#[derive(Debug, Clone, PartialEq, Eq)]
pub struct RenderChunk {
    /// The content of this chunk.
    pub value: String,
    /// The width of this chunk, in columns.
    pub width: usize,
    /// The style of this chunk.
    pub style: Style,
    /// Whether to display the cursor at the start of this chunk. If this is
    /// true, then `value` is empty, `width` is `0`, and `style` is the
    /// empty style.
    pub cursor: bool,
}

impl View for RenderChunk {
    type V = Chunk;

    open spec fn view(&self) -> Chunk {
        Chunk {
            text: self.value@,
            width: self.width as nat,
            style: self.style,
            cursor: self.cursor,
        }
    }
}

impl DeepView for RenderChunk {
    type V = Chunk;

    open spec fn deep_view(&self) -> Chunk {
        self.view()
    }
}

impl RenderChunk {
    /// Creates a chunk for the given text and style, measuring the text's
    /// display width.
    pub fn new(value: &str, style: Style) -> (r: RenderChunk)
        ensures
            r@ == text_chunk(value@, style),
            chunk_wf(r@),
    {
        let width = crate::width(value);
        RenderChunk::with_known_width(value, width, style)
    }

    /// Creates a chunk from a text whose display width was already
    /// measured.
    pub(crate) fn with_known_width(value: &str, width: usize, style: Style) -> (r: RenderChunk)
        requires
            width as nat == display_width(value@),
        ensures
            r@ == text_chunk(value@, style),
            chunk_wf(r@),
    {
        RenderChunk { value: value.to_owned(), width, style, cursor: false }
    }

    /// The cursor-marker chunk: empty, zero-width and unstyled.
    pub fn cursor() -> (r: RenderChunk)
        ensures
            r@ == cursor_chunk(),
            chunk_wf(r@),
    {
        proof {
            reveal_strlit("");
        }
        RenderChunk { value: String::new(), width: 0, style: Style::empty(), cursor: true }
    }
}

/// The characters emitted for one chunk: its style's escape sequences, its
/// text, and an attribute reset. A cursor marker emits nothing.
pub open spec fn chunk_code(c: Chunk) -> Seq<char> {
    if c.cursor {
        Seq::empty()
    } else {
        crate::style::style_code(c.style) + c.text + "\x1b[m"@
    }
}

/// The characters emitted for a sequence of chunks, in order.
pub open spec fn chunks_code(cs: Seq<Chunk>) -> Seq<char>
    decreases cs.len(),
{
    if cs.len() == 0 {
        Seq::empty()
    } else {
        chunks_code(cs.drop_last()) + chunk_code(cs.last())
    }
}

/// The characters emitted for one full line: its chunks followed by an
/// erase to the end of the line, so no stale characters survive from a
/// previous, wider frame.
pub open spec fn line_code(cs: Seq<Chunk>) -> Seq<char> {
    chunks_code(cs) + "\x1b[K"@
}

/// Whether the line holds a cursor marker.
pub open spec fn has_cursor(cs: Seq<Chunk>) -> bool {
    exists|i: int| 0 <= i < cs.len() && cs[i].cursor
}

/// The column requested by the last cursor marker of the line: the total
/// width of everything written before it.
pub open spec fn cursor_col(cs: Seq<Chunk>) -> nat
    decreases cs.len(),
{
    if cs.len() == 0 {
        0
    } else if cs.last().cursor {
        total_width(cs.drop_last())
    } else {
        cursor_col(cs.drop_last())
    }
}

/// A prefix never occupies more columns than the whole sequence.
pub proof fn lemma_total_width_take(s: Seq<Chunk>, i: int)
    requires
        0 <= i <= s.len(),
    ensures
        total_width(s.take(i)) <= total_width(s),
{
    assert(s =~= s.take(i) + s.skip(i));
    lemma_total_width_concat(s.take(i), s.skip(i));
}

/// A struct that renders lines of elements into an owned byte sink and
/// redraws them in place on each new frame.
///
/// The cross-frame state is the number of lines written by the last frame
/// and the cursor position its content requested; it is what lets a new
/// frame move back to the top of the block and repaint exactly over the
/// old one.
pub struct Renderer {
    /// The sink: every emitted control sequence and character, in order.
    pub writer: String,
    /// The number of lines written in the current frame so far.
    pub lines_rendered: u16,
    /// The (row, column) position requested by the last cursor marker, if
    /// any.
    pub desired_cursor: Option<(u16, u16)>,
    /// Whether a frame is mid-render, that is, [`Renderer::finish`] has
    /// not yet closed the last [`Renderer::render`].
    pub is_dirty: bool,
}

/// The row the physical cursor sits on after a finished frame: the row the
/// frame requested, or the last line written.
pub open spec fn current_cursor_row(r: Renderer) -> nat {
    match r.desired_cursor {
        Some(rc) => rc.0 as nat,
        None => if r.lines_rendered == 0 {
            0
        } else {
            (r.lines_rendered - 1) as nat
        },
    }
}

/// The characters emitted by a reset: a cursor-up to the block's first
/// row (omitted when already there) and a carriage return.
pub open spec fn reset_code(r: Renderer) -> Seq<char> {
    (if current_cursor_row(r) != 0 {
        "\x1b["@ + crate::ansi::dec(current_cursor_row(r)) + "A"@
    } else {
        Seq::<char>::empty()
    }) + "\r"@
}

/// The characters emitted by a finish: when a cursor position was
/// requested, a move up to its row (omitted when zero), a carriage
/// return, a move right to its column (omitted when zero), and a
/// show-cursor; otherwise only a hide-cursor.
pub open spec fn finish_code(r: Renderer) -> Seq<char> {
    match r.desired_cursor {
        Some(rc) => (if r.lines_rendered - rc.0 - 1 != 0 {
            "\x1b["@ + crate::ansi::dec((r.lines_rendered - rc.0 - 1) as nat) + "A"@
        } else {
            Seq::<char>::empty()
        }) + "\r"@ + (if rc.1 != 0 {
            "\x1b["@ + crate::ansi::dec(rc.1 as nat) + "C"@
        } else {
            Seq::<char>::empty()
        }) + "\x1b[?25h"@,
        None => "\x1b[?25l"@,
    }
}

/// The characters emitted by a leave: nothing when no line was written,
/// else a move down past the block (omitted when already past it) and a
/// newline with carriage return.
pub open spec fn leave_code(r: Renderer) -> Seq<char> {
    if r.lines_rendered == 0 {
        Seq::empty()
    } else {
        let down = match r.desired_cursor {
            Some(rc) => r.lines_rendered - rc.0 - 1,
            None => 0,
        };
        (if down != 0 {
            "\x1b["@ + crate::ansi::dec(down as nat) + "B"@
        } else {
            Seq::<char>::empty()
        }) + "\n\r"@
    }
}

impl Renderer {
    /// The renderer's invariant: a requested cursor row always lies on a
    /// line that was written.
    pub open spec fn inv(&self) -> bool {
        match self.desired_cursor {
            Some(rc) => (rc.0 as nat) < self.lines_rendered as nat,
            None => true,
        }
    }

    /// Creates a new [`Renderer`] that writes to the given sink.
    pub fn new(writer: String) -> (r: Renderer)
        ensures
            r.writer == writer,
            r.lines_rendered == 0,
            r.desired_cursor is None,
            !r.is_dirty,
            r.inv(),
    {
        Renderer { writer, lines_rendered: 0, desired_cursor: None, is_dirty: false }
    }

    /// Resets the renderer's frame-tracking state.
    fn reset_state(&mut self)
        ensures
            final(self).writer == old(self).writer,
            final(self).lines_rendered == 0,
            final(self).desired_cursor is None,
            !final(self).is_dirty,
            final(self).inv(),
    {
        self.lines_rendered = 0;
        self.desired_cursor = None;
        self.is_dirty = false;
    }

    /// Resets the cursor position to the block's top-left corner, allowing
    /// rendering to start over. Emits a cursor-up past every row written
    /// below the first (omitted when none were) and a carriage return.
    ///
    /// Must not be called while a frame is mid-render.
    pub fn reset(&mut self)
        requires
            !old(self).is_dirty,
            old(self).inv(),
        ensures
            final(self).writer@ == old(self).writer@ + reset_code(*old(self)),
            final(self).lines_rendered == 0,
            final(self).desired_cursor is None,
            !final(self).is_dirty,
            final(self).inv(),
    {
        let current_cursor_line: u16 = match self.desired_cursor {
            Some((line, _)) => line,
            None => if self.lines_rendered == 0 {
                0
            } else {
                self.lines_rendered - 1
            },
        };
        if current_cursor_line != 0 {
            let up = crate::ansi::cursor_up(current_cursor_line);
            self.writer.append(up.as_str());
        }
        self.writer.append("\r");
        proof {
            assert(self.writer@ =~= old(self).writer@ + reset_code(*old(self)));
        }
        self.reset_state();
    }

    /// Clears the rendered block, resetting the terminal back to a plain
    /// state: a reset, an erase of everything after the cursor, and a
    /// show-cursor.
    ///
    /// Must not be called while a frame is mid-render.
    pub fn clear(&mut self)
        requires
            !old(self).is_dirty,
            old(self).inv(),
        ensures
            final(self).writer@ == old(self).writer@ + reset_code(*old(self)) + "\x1b[J"@
                + "\x1b[?25h"@,
            final(self).lines_rendered == 0,
            final(self).desired_cursor is None,
            !final(self).is_dirty,
            final(self).inv(),
    {
        self.reset();
        self.writer.append("\x1b[J");
        self.writer.append("\x1b[?25h");
        proof {
            assert(self.writer@ =~= old(self).writer@ + reset_code(*old(self)) + "\x1b[J"@
                + "\x1b[?25h"@);
        }
    }

    /// Renders one line: advances past the previous line if any, then
    /// emits each chunk's style, text and a reset, records the position of
    /// any cursor marker, and erases to the end of the line.
    pub fn render<E: Element>(&mut self, line: E)
        requires
            old(self).inv(),
            line.wf(),
            old(self).lines_rendered < u16::MAX,
            line.spec_width() <= u16::MAX as nat,
        ensures
            final(self).inv(),
            final(self).is_dirty,
            final(self).lines_rendered == old(self).lines_rendered + 1,
            final(self).writer@ == old(self).writer@ + (if old(self).lines_rendered == 0 {
                Seq::<char>::empty()
            } else {
                "\n\r"@
            }) + line_code(line.chunks()),
            final(self).desired_cursor == (if has_cursor(line.chunks()) {
                Some((old(self).lines_rendered, cursor_col(line.chunks()) as u16))
            } else {
                old(self).desired_cursor
            }),
    {
        self.is_dirty = true;
        // If this isn't the first line, then move to the next line.
        if self.lines_rendered != 0 {
            self.writer.append("\n\r");
        }
        let ghost base = self.writer@;
        let ghost cs = line.chunks();
        let ghost row = self.lines_rendered;
        let ghost entry_desired = self.desired_cursor;
        let chunks = line.render();
        let mut column: usize = 0;
        let mut i: usize = 0;
        proof {
            assert(cs.take(0) =~= Seq::<Chunk>::empty());
            assert(self.writer@ =~= base + chunks_code(cs.take(0)));
        }
        while i < chunks.len()
            invariant
                i <= chunks.len(),
                chunks.deep_view() == cs,
                chunk_seq_wf(cs),
                total_width(cs) <= u16::MAX as nat,
                self.lines_rendered == row,
                self.is_dirty,
                self.writer@ == base + chunks_code(cs.take(i as int)),
                column as nat == total_width(cs.take(i as int)),
                self.desired_cursor == (if has_cursor(cs.take(i as int)) {
                    Some((row, cursor_col(cs.take(i as int)) as u16))
                } else {
                    entry_desired
                }),
            decreases chunks.len() - i,
        {
            let ghost prefix = cs.take(i as int);
            let c = &chunks[i];
            proof {
                assert(c@ == cs[i as int]);
                assert(cs.take(i as int + 1) =~= prefix.push(cs[i as int]));
                assert(cs.take(i as int + 1).drop_last() =~= prefix);
                lemma_total_width_take(cs, i as int + 1);
            }
            if c.cursor {
                self.desired_cursor = Some((self.lines_rendered, column as u16));
                proof {
                    assert(has_cursor(cs.take(i as int + 1)));
                    assert(cursor_col(cs.take(i as int + 1)) == total_width(prefix));
                    assert(chunk_code(cs[i as int]) =~= Seq::<char>::empty());
                    assert(chunks_code(cs.take(i as int + 1)) =~= chunks_code(prefix));
                    assert(total_width(cs.take(i as int + 1)) == total_width(prefix));
                }
            } else {
                let escape = c.style.escape_string();
                self.writer.append(escape.as_str());
                self.writer.append(c.value.as_str());
                self.writer.append("\x1b[m");
                proof {
                    assert(chunks_code(cs.take(i as int + 1)) =~= chunks_code(prefix)
                        + chunk_code(cs[i as int]));
                    assert(self.writer@ =~= base + chunks_code(cs.take(i as int + 1)));
                    assert(total_width(cs.take(i as int + 1)) == total_width(prefix)
                        + cs[i as int].width);
                    if has_cursor(cs.take(i as int + 1)) {
                        assert(has_cursor(prefix));
                        assert(cursor_col(cs.take(i as int + 1)) == cursor_col(prefix));
                    } else {
                        assert(!has_cursor(prefix));
                    }
                }
                column = column + c.width;
            }
            i += 1;
        }
        self.writer.append("\x1b[K");
        self.lines_rendered = self.lines_rendered + 1;
        proof {
            assert(cs.take(chunks.len() as int) =~= cs);
            assert(self.writer@ =~= old(self).writer@ + (if old(self).lines_rendered == 0 {
                Seq::<char>::empty()
            } else {
                "\n\r"@
            }) + line_code(cs));
        }
    }

    /// Finishes rendering. This should be called immediately after the
    /// [`render`](Self::render) calls of a frame are complete: it moves
    /// the physical cursor to the position requested by the frame's cursor
    /// marker and shows the cursor, or hides the cursor when the frame
    /// requested none.
    pub fn finish(&mut self)
        requires
            old(self).inv(),
        ensures
            final(self).writer@ == old(self).writer@ + finish_code(*old(self)),
            final(self).lines_rendered == old(self).lines_rendered,
            final(self).desired_cursor == old(self).desired_cursor,
            !final(self).is_dirty,
            final(self).inv(),
    {
        self.is_dirty = false;
        match self.desired_cursor {
            Some((line, column)) => {
                let up = self.lines_rendered - line - 1;
                if up != 0 {
                    let s = crate::ansi::cursor_up(up);
                    self.writer.append(s.as_str());
                }
                self.writer.append("\r");
                if column != 0 {
                    let s = crate::ansi::cursor_right(column);
                    self.writer.append(s.as_str());
                }
                self.writer.append("\x1b[?25h");
            },
            None => {
                self.writer.append("\x1b[?25l");
            },
        }
        proof {
            assert(self.writer@ =~= old(self).writer@ + finish_code(*old(self)));
        }
    }

    /// Leaves the currently-rendered block in place, making it impossible
    /// to clear: the physical cursor moves past the block and onto a fresh
    /// line, and the frame-tracking state forgets the block.
    ///
    /// This may be used to dispose of a `Renderer` without clearing the
    /// rendered text. It should be called after [`finish`](Self::finish).
    pub fn leave(&mut self)
        requires
            !old(self).is_dirty,
            old(self).inv(),
        ensures
            final(self).writer@ == old(self).writer@ + leave_code(*old(self)),
            final(self).lines_rendered == 0,
            final(self).desired_cursor is None,
            !final(self).is_dirty,
            final(self).inv(),
    {
        if self.lines_rendered == 0 {
            proof {
                assert(self.writer@ =~= old(self).writer@ + leave_code(*old(self)));
            }
            return ;
        }
        let down: u16 = match self.desired_cursor {
            Some((row, _)) => self.lines_rendered - row - 1,
            None => 0,
        };
        if down != 0 {
            let s = crate::ansi::cursor_down(down);
            self.writer.append(s.as_str());
        }
        self.writer.append("\n\r");
        proof {
            assert(self.writer@ =~= old(self).writer@ + leave_code(*old(self)));
        }
        self.reset_state();
    }
}

} // verus!
