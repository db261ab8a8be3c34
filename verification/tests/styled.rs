use line_ui::element::{Element, Styled, Text};
use line_ui::{Color, RenderChunk, Style};

fn style_1() -> Style {
    Style {
        foreground: Some(Color::Ansi(42)),
        ..Style::empty()
    }
}

fn style_2() -> Style {
    Style {
        foreground: Some(Color::Ansi(96)),
        ..Style::empty()
    }
}

fn style_3() -> Style {
    Style {
        background: Some(Color::Ansi(1)),
        ..Style::empty()
    }
}

#[test]
fn styled_basic() {
    let element = Styled::new(style_1(), Text::new("Hello, world!"));
    let render = element.render();
    assert_eq!(render, vec![RenderChunk::new("Hello, world!", style_1())]);
}

#[test]
fn nested() {
    let element = Styled::new(style_1(), Styled::new(style_2(), Text::new("Hello, world!")));
    let render = element.render();
    assert_eq!(render, vec![RenderChunk::new("Hello, world!", style_2())]);
}

#[test]
fn nested_merge() {
    let element = Styled::new(style_3(), Styled::new(style_2(), Text::new("Hello, world!")));
    let render = element.render();
    assert_eq!(
        render,
        vec![RenderChunk::new(
            "Hello, world!",
            Style {
                foreground: Some(Color::Ansi(96)),
                background: Some(Color::Ansi(1)),
                ..Style::empty()
            },
        )],
    );
}
