use line_ui::element::{Element, Gap};
use line_ui::{RenderChunk, Style};

fn chunk(s: &str) -> RenderChunk {
    RenderChunk::new(s, Style::empty())
}

#[test]
fn gap_empty() {
    let element = Gap(0);
    let render = element.render();
    assert_eq!(render, Vec::<RenderChunk>::new());
}

#[test]
fn short() {
    let element = Gap(7);
    let render = element.render();
    assert_eq!(render, vec![chunk("       ")]);
}

#[test]
fn long() {
    let element = Gap(18);
    let render = element.render();
    assert_eq!(render, vec![chunk("                "), chunk("  ")]);
}
