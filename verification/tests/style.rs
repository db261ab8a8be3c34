use line_ui::{Color, Style};

fn style_1() -> Style {
    Style {
        foreground: Some(Color::Ansi(1)),
        bold: Some(true),
        ..Style::empty()
    }
}

fn style_2() -> Style {
    Style {
        foreground: Some(Color::Ansi(2)),
        italic: Some(true),
        ..Style::empty()
    }
}

#[test]
fn with() {
    let style = style_1().with(style_2());
    assert_eq!(
        style,
        Style {
            foreground: Some(Color::Ansi(2)),
            bold: Some(true),
            italic: Some(true),
            ..Style::empty()
        },
    );
}

#[test]
fn or() {
    let style = style_1().or(style_2());
    assert_eq!(
        style,
        Style {
            foreground: Some(Color::Ansi(1)),
            bold: Some(true),
            italic: Some(true),
            ..Style::empty()
        },
    );
}

#[test]
fn plus() {
    assert_eq!(style_1().with(style_2()), style_1() + style_2());
}

#[test]
fn print_empty() {
    let output = Style::empty().escape_string();
    assert_eq!(output.as_bytes(), b"");
}

#[test]
fn print_full() {
    let output = Style {
        foreground: Some(Color::Ansi(1)),
        background: Some(Color::Ansi(2)),
        bold: Some(true),
        italic: Some(true),
        underline: Some(true),
        blink: Some(true),
        invert: Some(true),
        strikethrough: Some(true),
    }
    .escape_string();
    assert_eq!(
        output.as_bytes(),
        b"\x1b[38;5;1m\x1b[48;5;2m\x1b[1m\x1b[3m\x1b[4m\x1b[5m\x1b[7m\x1b[9m",
    );
}

#[test]
fn print_default_and_rgb() {
    let output = (Style::fg((1, 2, 3)) + Style::bg(Color::Default)).escape_string();
    assert_eq!(output.as_bytes(), b"\x1b[38;2;1;2;3m\x1b[49m");
}
