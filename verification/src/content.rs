//! The drawer content panel: a passthrough container that wraps arbitrary
//! child markup in a single styled `div`.

use crate::markup::{Element, Node};
use vstd::prelude::*;

verus! {

/// Properties of the content panel: an optional identifier (empty string when
/// omitted) and the child markup to wrap.
pub struct Props {
    pub id: String,
    pub children: Vec<Node>,
}

/// The content panel itself. It keeps no state of its own.
pub struct Content;

impl Content {
    /// A fresh panel; nothing happens at construction.
    pub fn create() -> (c: Content) {
        Content
    }

    /// A property change always asks for a re-render.
    pub fn changed(&mut self) -> (render: bool)
        ensures
            render,
    {
        true
    }

    /// The panel handles no messages; a message never re-renders.
    pub fn update(&mut self, _msg: ()) -> (render: bool)
        ensures
            !render,
    {
        false
    }

    /// Renders one wrapper `div` carrying the fixed style class, the given
    /// identifier, and the supplied children unchanged.
    pub fn view(&self, props: Props) -> (n: Node)
        ensures
            n matches Node::Elem(e) ==> {
                &&& e.tag@ == "div"@
                &&& e.id@ == props.id@
                &&& e.classes@.len() == 1
                &&& e.classes@[0]@ == "mdc-drawer__content"@
                &&& e.attrs@.len() == 0
                &&& e.children == props.children
            },
            n is Elem,
    {
        let mut classes: Vec<String> = Vec::new();
        classes.push(String::from_str("mdc-drawer__content"));
        Node::Elem(Element {
            tag: String::from_str("div"),
            id: props.id,
            classes,
            attrs: Vec::new(),
            children: props.children,
        })
    }
}

} // verus!
