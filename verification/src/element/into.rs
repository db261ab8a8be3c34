use vstd::prelude::*;

use crate::display_width;
use crate::element::{BoxElement, Direction, Element, FixedWidth, Styled, Text};
use crate::render::{Chunk, text_chunk};
use crate::style::Style;

verus! {

/// A type that can be converted into an element.
pub trait IntoElement: Sized {
    /// The element type to be converted into.
    type ElementType: Element;

    /// Whether the value can be converted into a well-formed element.
    spec fn into_wf(self) -> bool;

    /// The chunks the converted element renders to.
    spec fn into_chunks(self) -> Seq<Chunk>;

    /// The width of the converted element, in columns.
    spec fn into_width(self) -> nat;

    /// Converts this type into an [`Element`].
    fn into_element(self) -> (r: Self::ElementType)
        requires
            self.into_wf(),
        ensures
            r.wf(),
            r.chunks() == self.into_chunks(),
            r.spec_width() == self.into_width(),
    ;

    /// Convenience function to wrap this element in a [`FixedWidth`].
    fn fixed_width(self, width: usize) -> (r: FixedWidth<Self::ElementType, ()>)
        requires
            self.into_wf(),
        ensures
            r.wf(),
            r.width == width,
            r.truncate == Direction::Right,
            r.pad == Direction::Right,
            r.content.wf(),
            r.content.chunks() == self.into_chunks(),
            r.content.spec_width() == self.into_width(),
    {
        FixedWidth::new(width, self.into_element())
    }

    /// Convenience function to wrap this element in a [`Styled`].
    fn with_style(self, style: Style) -> (r: Styled<Self::ElementType>)
        requires
            self.into_wf(),
        ensures
            r.wf(),
            r.style == style,
            r.inner.chunks() == self.into_chunks(),
            r.inner.spec_width() == self.into_width(),
    {
        Styled::new(style, self.into_element())
    }

    /// Convenience function to box this element.
    fn boxed(self) -> (r: BoxElement)
        requires
            self.into_wf(),
        ensures
            r.wf(),
            r.chunks() == self.into_chunks(),
            r.spec_width() == self.into_width(),
    {
        BoxElement::new(self.into_element())
    }
}

impl<E: Element> IntoElement for E {
    type ElementType = E;

    open spec fn into_wf(self) -> bool {
        self.wf()
    }

    open spec fn into_chunks(self) -> Seq<Chunk> {
        self.chunks()
    }

    open spec fn into_width(self) -> nat {
        self.spec_width()
    }

    fn into_element(self) -> (r: E) {
        self
    }
}

impl<'a> IntoElement for &'a str {
    type ElementType = Text;

    open spec fn into_wf(self) -> bool {
        true
    }

    open spec fn into_chunks(self) -> Seq<Chunk> {
        seq![text_chunk(self@, Style::spec_empty())]
    }

    open spec fn into_width(self) -> nat {
        display_width(self@)
    }

    fn into_element(self) -> (r: Text) {
        Text::new(self)
    }
}

} // verus!
