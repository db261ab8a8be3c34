use line_ui::element::IntoElement;
use line_ui::{Renderer, Style};

#[test]
fn styled() {
    let mut r = Renderer::new(String::new());
    r.reset();
    r.render((
        "one".into_element(),
        "two".with_style(Style::fg(4).with(Style::bg(5))),
        "three".into_element(),
    ));
    r.finish();
    assert_eq!(
        r.writer.as_bytes(),
        b"\rone\x1b[m\x1b[38;5;4m\x1b[48;5;5mtwo\x1b[mthree\x1b[m\x1b[K\x1b[?25l".as_slice(),
    );
}

#[test]
fn styledd_fixed_width() {
    let mut r = Renderer::new(String::new());
    r.reset();
    r.render(
        "test"
            .fixed_width(10)
            .with_style(Style::fg(42).with(Style::bg(43))),
    );
    r.finish();
    assert_eq!(
        r.writer.as_bytes(),
        b"\r\x1b[38;5;42m\x1b[48;5;43mtest\x1b[m\x1b[38;5;42m\x1b[48;5;43m      \x1b[m\x1b[K\x1b[?25l"
            .as_slice(),
    );
}
