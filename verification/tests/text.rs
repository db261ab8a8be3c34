use line_ui::element::{Element, Text};
use line_ui::{RenderChunk, Style};

#[test]
fn text_basic() {
    let element = Text::new("hello");
    let render = element.render();
    assert_eq!(render, vec![RenderChunk::new("hello", Style::empty())]);
}
