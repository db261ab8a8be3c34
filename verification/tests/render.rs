use line_ui::element::{Cursor, IntoElement};
use line_ui::Renderer;

#[test]
fn render_empty() {
    let mut r = Renderer::new(String::new());
    for _ in 0..3 {
        r.writer.clear();
        r.reset();
        r.finish();
        assert_eq!(r.writer.as_bytes(), b"\r\x1b[?25l");
    }
}

#[test]
fn empty_line() {
    let mut r = Renderer::new(String::new());
    for _ in 0..3 {
        r.writer.clear();
        r.reset();
        r.render(());
        r.finish();
        assert_eq!(r.writer.as_bytes(), b"\r\x1b[K\x1b[?25l");
    }
}

#[test]
fn one_line() {
    let mut r = Renderer::new(String::new());
    for _ in 0..3 {
        r.writer.clear();
        r.reset();
        r.render("trans rights".into_element());
        r.finish();
        assert_eq!(r.writer.as_bytes(), b"\rtrans rights\x1b[m\x1b[K\x1b[?25l");
    }
}

#[test]
fn two_lines() {
    let mut r = Renderer::new(String::new());
    r.reset();
    r.render("trans rights".into_element());
    r.render("enby rights".into_element());
    r.finish();
    assert_eq!(
        r.writer.as_bytes(),
        b"\rtrans rights\x1b[m\x1b[K\n\renby rights\x1b[m\x1b[K\x1b[?25l".as_slice(),
    );

    for _ in 0..3 {
        r.writer.clear();
        r.reset();
        r.render("trans rights".into_element());
        r.render("enby rights".into_element());
        r.finish();
        assert_eq!(
            r.writer.as_bytes(),
            b"\x1b[1A\rtrans rights\x1b[m\x1b[K\n\renby rights\x1b[m\x1b[K\x1b[?25l".as_slice(),
        );
    }
}

#[test]
fn drop() {
    let mut r = Renderer::new(String::new());
    r.clear();
    assert_eq!(r.writer.as_bytes(), b"\r\x1b[J\x1b[?25h");
}

#[test]
fn cursor_at_start_of_last_line() {
    let mut r = Renderer::new(String::new());
    r.reset();
    r.render("trans rights".into_element());
    r.render((Cursor, "enby rights".into_element()));
    r.finish();
    assert_eq!(
        r.writer.as_bytes(),
        b"\rtrans rights\x1b[m\x1b[K\n\renby rights\x1b[m\x1b[K\r\x1b[?25h".as_slice(),
    );
}

#[test]
fn cursor_in_last_line() {
    let mut r = Renderer::new(String::new());
    r.reset();
    r.render("trans rights".into_element());
    r.render(("enby ".into_element(), Cursor, "rights".into_element()));
    r.finish();
    assert_eq!(
        r.writer.as_bytes(),
        b"\rtrans rights\x1b[m\x1b[K\n\renby \x1b[mrights\x1b[m\x1b[K\r\x1b[5C\x1b[?25h".as_slice(),
    );
}

#[test]
fn cursor_in_previous_line() {
    let mut r = Renderer::new(String::new());
    r.reset();
    r.render(("trans rights".into_element(), Cursor));
    r.render("enby rights".into_element());
    r.finish();
    assert_eq!(
        r.writer.as_bytes(),
        b"\rtrans rights\x1b[m\x1b[K\n\renby rights\x1b[m\x1b[K\x1b[1A\r\x1b[12C\x1b[?25h"
            .as_slice(),
    );
}

#[test]
fn leave_empty() {
    let mut r = Renderer::new(String::new());
    r.reset();
    r.finish();
    r.writer.clear();
    r.leave();
    assert_eq!(r.writer.as_bytes(), b"");
}

#[test]
fn leave() {
    let mut r = Renderer::new(String::new());
    r.reset();
    r.render("trans rights".into_element());
    r.render("enby rights".into_element());
    r.finish();
    r.writer.clear();
    r.leave();
    r.clear();
    assert_eq!(r.writer.as_bytes(), b"\n\r\r\x1b[J\x1b[?25h");
}

#[test]
fn leave_with_cursor() {
    let mut r = Renderer::new(String::new());
    r.reset();
    r.render(("trans rights".into_element(), Cursor));
    r.render("enby rights".into_element());
    r.finish();
    r.writer.clear();
    r.leave();
    r.clear();
    assert_eq!(r.writer.as_bytes(), b"\x1b[1B\n\r\r\x1b[J\x1b[?25h");
}
