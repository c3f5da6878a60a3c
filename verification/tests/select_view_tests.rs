use mdc_components::markup::{Element, Node};
use mdc_components::select::{Select, SelectProps};

fn props(label: Option<&str>, fixed: bool) -> SelectProps {
    SelectProps {
        children: vec![Node::Text(String::from("option-a")), Node::Text(String::from("option-b"))],
        select_width_class: String::from("demo-width"),
        id: String::from("sel"),
        label: label.map(String::from),
        fixed_position: fixed,
        absolute_position: None,
        selected_value: None,
    }
}

fn elem(n: &Node) -> &Element {
    match n {
        Node::Elem(e) => e,
        Node::Text(_) => panic!("expected an element"),
    }
}

fn attr_value<'a>(e: &'a Element, name: &str) -> &'a str {
    for a in e.attrs.iter() {
        if a.name == name {
            return a.value.as_str();
        }
    }
    panic!("attribute not found");
}

fn floating_labels(e: &Element) -> Vec<&Element> {
    e.children
        .iter()
        .filter_map(|c| match c {
            Node::Elem(child) => {
                if child.classes.iter().any(|cl| cl == "mdc-floating-label") {
                    Some(child)
                } else {
                    None
                }
            }
            Node::Text(_) => None,
        })
        .collect()
}

#[test]
fn view_with_label_has_exactly_one_floating_label() {
    let s = Select::create();
    let n = s.view(props(Some("Fruit"), false));
    let root = elem(&n);
    assert_eq!(root.tag, "div");
    assert_eq!(root.id, "sel");
    assert_eq!(
        root.classes,
        vec![
            String::from("mdc-select"),
            String::from("mdc-select--filled"),
            String::from("demo-width"),
        ]
    );
    let anchor = elem(&root.children[0]);
    let labels = floating_labels(anchor);
    assert_eq!(labels.len(), 1);
    assert_eq!(labels[0].id, "sel-label");
    match &labels[0].children[0] {
        Node::Text(t) => assert_eq!(t, "Fruit"),
        Node::Elem(_) => panic!("expected the label text"),
    }
}

#[test]
fn view_without_label_has_no_floating_label_and_no_label_variant() {
    let s = Select::create();
    let n = s.view(props(None, false));
    let root = elem(&n);
    assert_eq!(
        root.classes,
        vec![
            String::from("mdc-select"),
            String::from("mdc-select--filled"),
            String::from("demo-width"),
            String::from("mdc-select--no-label"),
        ]
    );
    let anchor = elem(&root.children[0]);
    assert!(floating_labels(anchor).is_empty());
    assert_eq!(anchor.children.len(), 4);
}

#[test]
fn view_menu_surface_fixed_variant() {
    let s = Select::create();
    let n = s.view(props(Some("Fruit"), true));
    let menu = elem(&elem(&n).children[1]);
    assert!(menu.classes.iter().any(|c| c == "mdc-menu-surface--fixed"));
    assert!(!menu.classes.iter().any(|c| c == "mdc-menu-surface--fullwidth"));
}

#[test]
fn view_menu_surface_fullwidth_variant() {
    let s = Select::create();
    let n = s.view(props(Some("Fruit"), false));
    let menu = elem(&elem(&n).children[1]);
    assert!(!menu.classes.iter().any(|c| c == "mdc-menu-surface--fixed"));
    assert!(menu.classes.iter().any(|c| c == "mdc-menu-surface--fullwidth"));
    assert_eq!(
        menu.classes,
        vec![
            String::from("mdc-menu"),
            String::from("mdc-menu-surface"),
            String::from("mdc-select__menu"),
            String::from("demo-width"),
            String::from("mdc-menu-surface--fullwidth"),
        ]
    );
}

#[test]
fn view_anchor_aria_contract() {
    let s = Select::create();
    let n = s.view(props(Some("Fruit"), false));
    let anchor = elem(&elem(&n).children[0]);
    assert_eq!(anchor.classes, vec![String::from("mdc-select__anchor")]);
    assert_eq!(attr_value(anchor, "role"), "button");
    assert_eq!(attr_value(anchor, "aria-haspopup"), "listbox");
    assert_eq!(attr_value(anchor, "aria-expanded"), "false");
    assert_eq!(attr_value(anchor, "aria-labelledby"), "sel-label sel-selected-text");
}

#[test]
fn view_listbox_wraps_children_unchanged() {
    let s = Select::create();
    let n = s.view(props(Some("Fruit"), false));
    let menu = elem(&elem(&n).children[1]);
    let list = elem(&menu.children[0]);
    assert_eq!(list.tag, "ul");
    assert_eq!(list.classes, vec![String::from("mdc-deprecated-list")]);
    assert_eq!(attr_value(list, "role"), "listbox");
    assert_eq!(attr_value(list, "aria-label"), "Fruit listbox");
    assert_eq!(list.children.len(), 2);
    match &list.children[0] {
        Node::Text(t) => assert_eq!(t, "option-a"),
        Node::Elem(_) => panic!("expected the first option"),
    }
    match &list.children[1] {
        Node::Text(t) => assert_eq!(t, "option-b"),
        Node::Elem(_) => panic!("expected the second option"),
    }
}

#[test]
fn view_listbox_aria_label_without_label() {
    let s = Select::create();
    let n = s.view(props(None, false));
    let menu = elem(&elem(&n).children[1]);
    let list = elem(&menu.children[0]);
    assert_eq!(attr_value(list, "aria-label"), " listbox");
}
