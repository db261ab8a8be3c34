use line_ui::element::{BoxElement, Cursor, Direction, Element, Gap, IntoElement, Text};
use line_ui::{Color, RenderChunk, Renderer, Style};

fn chunk(s: &str) -> RenderChunk {
    RenderChunk::new(s, Style::empty())
}

fn rendered_width(chunks: &[RenderChunk]) -> usize {
    chunks.iter().filter(|c| !c.cursor).map(|c| c.width).sum()
}

#[test]
fn width_conservation_nested() {
    // The widths of the rendered chunks (cursor markers excluded) sum to
    // the element's width, through every combinator.
    let element = (
        "a".into_element(),
        Gap(3),
        Cursor,
        "日本".with_style(Style::bold()),
    );
    assert_eq!(element.width(), 8);
    let render = element.render();
    assert_eq!(rendered_width(&render), 8);

    let fixed = ("pad me".into_element(), Cursor).fixed_width(11);
    assert_eq!(fixed.width(), 11);
    assert_eq!(rendered_width(&fixed.render()), 11);

    let truncated = "much too wide for this".fixed_width(4);
    assert_eq!(truncated.width(), 4);
    assert_eq!(rendered_width(&truncated.render()), 4);
}

#[test]
fn boxed_renders_like_inner() {
    let inner = ("one ".into_element(), "two".with_style(Style::italic()));
    let direct = inner.render();
    let boxed = BoxElement::new(("one ".into_element(), "two".with_style(Style::italic())));
    assert_eq!(boxed.width(), 7);
    assert_eq!(boxed.render(), direct);
}

#[test]
fn array_element() {
    let element = [Text::new("ab"), Text::new("cd")];
    assert_eq!(element.width(), 4);
    assert_eq!(element.render(), vec![chunk("ab"), chunk("cd")]);
}

#[test]
fn slice_element() {
    let items = [Text::new("ab"), Text::new("cd")];
    let slice: &[Text] = &items;
    assert_eq!(slice.width(), 4);
    assert_eq!(slice.render(), vec![chunk("ab"), chunk("cd")]);
}

#[test]
fn option_element() {
    let none: Option<Text> = None;
    assert_eq!(none.width(), 0);
    assert_eq!(none.render(), Vec::<RenderChunk>::new());

    let some = Some(Text::new("hi"));
    assert_eq!(some.width(), 2);
    assert_eq!(some.render(), vec![chunk("hi")]);
}

#[test]
fn long_padding_reversed_on_left() {
    // A left padding wider than one blank buffer is pushed to the front
    // chunk by chunk, so the remainder chunk comes first.
    let element = "x".fixed_width(20).padded(Direction::Left);
    let render = element.render();
    assert_eq!(
        render,
        vec![chunk("   "), chunk("                "), chunk("x")],
    );
}

#[test]
fn cursor_dropped_when_truncated_away() {
    // A cursor marker past the cut does not survive truncation.
    let element = ("abcdef".into_element(), Cursor).fixed_width(3);
    let render = element.render();
    assert_eq!(render, vec![chunk("abc")]);
}

#[test]
fn escape_codes_by_value() {
    assert_eq!(Style::fg(4).escape_string().as_bytes(), b"\x1b[38;5;4m");
    assert_eq!(Style::bg(123).escape_string().as_bytes(), b"\x1b[48;5;123m");
    assert_eq!(
        Style::fg(Color::Default).escape_string().as_bytes(),
        b"\x1b[39m",
    );
}

#[test]
fn cursor_up_two_digits() {
    // Eleven rendered lines move the cursor back up by a two-digit count
    // on the next frame.
    let mut r = Renderer::new(String::new());
    r.reset();
    for _ in 0..11 {
        r.render("line".into_element());
    }
    r.finish();
    r.writer.clear();
    r.reset();
    assert_eq!(r.writer.as_bytes(), b"\x1b[10A\r");
}

#[test]
fn merge_identity_values() {
    let s = Style::fg(7).with(Style::underline());
    assert_eq!(s.with(Style::empty()), s);
    assert_eq!(Style::empty().with(s), s);
    assert_eq!(s.or(Style::empty()), s);
    assert_eq!(Style::empty().or(s), s);
}
