use mdc_components::content::{Content, Props};
use mdc_components::markup::Node;

fn text_of(n: &Node) -> &str {
    match n {
        Node::Text(t) => t.as_str(),
        Node::Elem(_) => panic!("expected a text node"),
    }
}

#[test]
fn content_wraps_children_with_id() {
    let c = Content::create();
    let props = Props {
        id: String::from("drawer-main"),
        children: vec![Node::Text(String::from("alpha")), Node::Text(String::from("beta"))],
    };
    let n = c.view(props);
    match n {
        Node::Elem(e) => {
            assert_eq!(e.tag, "div");
            assert_eq!(e.id, "drawer-main");
            assert_eq!(e.classes, vec![String::from("mdc-drawer__content")]);
            assert!(e.attrs.is_empty());
            assert_eq!(e.children.len(), 2);
            assert_eq!(text_of(&e.children[0]), "alpha");
            assert_eq!(text_of(&e.children[1]), "beta");
        }
        Node::Text(_) => panic!("expected an element"),
    }
}

#[test]
fn content_empty_id_and_no_children() {
    let c = Content::create();
    let n = c.view(Props { id: String::new(), children: vec![] });
    match n {
        Node::Elem(e) => {
            assert_eq!(e.id, "");
            assert_eq!(e.classes, vec![String::from("mdc-drawer__content")]);
            assert!(e.children.is_empty());
        }
        Node::Text(_) => panic!("expected an element"),
    }
}

#[test]
fn content_always_rerenders_on_prop_change() {
    let mut c = Content::create();
    assert!(c.changed());
    assert!(!c.update(()));
}
