use line_ui::element::{Cursor, Direction, Element, IntoElement, Text};
use line_ui::{RenderChunk, Style};

fn chunk(s: &str) -> RenderChunk {
    RenderChunk::new(s, Style::empty())
}

#[test]
fn width_zero() {
    let element = "hello".fixed_width(0);
    let render = element.render();
    assert_eq!(render, Vec::<RenderChunk>::new());
}

#[test]
fn empty_content() {
    let element = ().fixed_width(4);
    let render = element.render();
    assert_eq!(render, vec![chunk("    ")]);
}

#[test]
fn blank_chunks_do_not_drop_cursor() {
    let element = (Text::new(""), Text::new(""), Cursor).fixed_width(0);
    let render = element.render();
    assert_eq!(render, vec![chunk(""), chunk(""), RenderChunk::cursor()]);
}

#[test]
fn blank_content() {
    let element = "".fixed_width(5);
    let render = element.render();
    assert_eq!(render, vec![chunk(""), chunk("     ")]);
}

#[test]
fn short_content() {
    let element = "foo".fixed_width(6);
    let render = element.render();
    assert_eq!(render, vec![chunk("foo"), chunk("   ")]);
}

#[test]
fn equal_content() {
    let element = "foobar".fixed_width(6);
    let render = element.render();
    assert_eq!(render, vec![chunk("foobar")]);
}

#[test]
fn long_content() {
    let element = "foobarbaz".fixed_width(8);
    let render = element.render();
    assert_eq!(render, vec![chunk("foobarba")]);
}

#[test]
fn long_content_with_more() {
    let element = (Text::new("foobarbaz"), Text::new("asdf")).fixed_width(8);
    let render = element.render();
    assert_eq!(render, vec![chunk("foobarba")]);
}

#[test]
fn short_content_truncated_left() {
    let element = "foo".fixed_width(6).truncated(Direction::Left);
    let render = element.render();
    assert_eq!(render, vec![chunk("foo"), chunk("   ")]);
}

#[test]
fn equal_content_truncated_left() {
    let element = "foobar".fixed_width(6).truncated(Direction::Left);
    let render = element.render();
    assert_eq!(render, vec![chunk("foobar")]);
}

#[test]
fn long_content_truncated_left() {
    let element = "foobarbaz".fixed_width(8).truncated(Direction::Left);
    let render = element.render();
    assert_eq!(render, vec![chunk("oobarbaz")]);
}

#[test]
fn long_content_with_more_truncated_left() {
    let element = (Text::new("asdf"), Text::new("foobarbaz"))
        .fixed_width(8)
        .truncated(Direction::Left);
    let render = element.render();
    assert_eq!(render, vec![chunk("oobarbaz")]);
}

#[test]
fn short_content_padded_left() {
    let element = "foo".fixed_width(6).padded(Direction::Left);
    let render = element.render();
    assert_eq!(render, vec![chunk("   "), chunk("foo")]);
}

#[test]
fn short_content_with_truncation() {
    let element = "foo".fixed_width(6).truncated_with("$".into_element());
    let render = element.render();
    assert_eq!(render, vec![chunk("foo"), chunk("   ")]);
}

#[test]
fn equal_content_with_truncation() {
    let element = "foobar".fixed_width(6).truncated_with("$".into_element());
    let render = element.render();
    assert_eq!(render, vec![chunk("foobar")]);
}

#[test]
fn long_content_with_truncation() {
    let element = "foobarbaz"
        .fixed_width(6)
        .truncated_with("$".into_element());
    let render = element.render();
    assert_eq!(render, vec![chunk("fooba"), chunk("$")]);
}

#[test]
fn long_content_with_truncation_on_left() {
    let element = "foobarbaz"
        .fixed_width(6)
        .truncated(Direction::Left)
        .truncated_with("$".into_element());
    let render = element.render();
    assert_eq!(render, vec![chunk("$"), chunk("arbaz")]);
}
