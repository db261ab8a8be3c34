use line_ui::element::{Element, Gap, IntoElement};

fn is_element<E: Element + ?Sized>() {}

fn value_is_element<E: Element + ?Sized>(_: &E) {}

fn same_lifetime<L: Element, R: Element>(_: &L, _: &R) {}

#[test]
fn element_impls() {
    is_element::<Gap>();
    is_element::<&Gap>();
    is_element::<Option<Gap>>();
    is_element::<()>();
    is_element::<[Gap]>();
    is_element::<&[Gap]>();
    is_element::<[Gap; 42]>();
    is_element::<[&[Gap]; 4]>();
    is_element::<((), (), Gap)>();
    is_element::<((), Gap, (), Gap)>();
    is_element::<((), (), (), (), (), (), (), Gap, (), ())>();

    let not_static = "foo".to_owned();
    let not_static = not_static[..].into_element();
    value_is_element(&not_static);
    value_is_element(&(not_static, Gap(1)));
}

#[test]
fn element_lifetime() {
    let not_static = "foo".to_owned();
    let mut not_static = not_static[..].into_element();
    let is_static = "foo".into_element();
    same_lifetime(&is_static, &not_static);
    same_lifetime(&not_static, &is_static);
    not_static = is_static;
    let _ = not_static;
}
