use line_ui::element::IntoElement;
use line_ui::Renderer;

#[test]
fn non_static_lifetime() {
    let string = "foo".to_owned();
    let not_static = string[..].into_element();

    let mut r = Renderer::new(String::new());
    r.reset();
    r.render(&not_static);
    r.render(not_static.fixed_width(42));
    r.finish();
}
