use line_ui::element::{Direction, Element, IntoElement, Text};
use line_ui::{RenderChunk, Style};

fn chunk(s: &str) -> RenderChunk {
    RenderChunk::new(s, Style::empty())
}

#[test]
fn wide_text_width() {
    let element = Text::new("日本");
    assert_eq!(element.width(), 4);
    let render = element.render();
    assert_eq!(render, vec![chunk("日本")]);
    assert_eq!(render[0].width, 4);
}

#[test]
fn wide_char_not_split_right() {
    // Cutting "ab日" to three columns keeps only "ab": the two-column
    // character cannot be split in half.
    let element = "ab日".fixed_width(3);
    let render = element.render();
    assert_eq!(render, vec![chunk("ab"), chunk(" ")]);
}

#[test]
fn wide_char_not_split_left() {
    let element = "日ab".fixed_width(3).truncated(Direction::Left);
    let render = element.render();
    assert_eq!(render, vec![chunk("ab"), chunk(" ")]);
}

#[test]
fn wide_gap_filler() {
    // The display width of "日日" is four columns, so two blank columns
    // remain out of six.
    let element = "日日".fixed_width(6);
    let render = element.render();
    assert_eq!(render, vec![chunk("日日"), chunk("  ")]);
}
