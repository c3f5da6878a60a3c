//! Rendered markup, modelled as a tree of elements and text.
//!
//! Class names are kept as a list of their own rather than folded into a
//! single attribute string, so that contracts can speak of each class
//! individually.

use vstd::prelude::*;

verus! {

/// A plain attribute on an element: a name and a value.
pub struct Attr {
    pub name: String,
    pub value: String,
}

/// An element of the rendered tree: a tag, an identifier (empty when none is
/// set), its style classes, its remaining attributes, and its children.
pub struct Element {
    pub tag: String,
    pub id: String,
    pub classes: Vec<String>,
    pub attrs: Vec<Attr>,
    pub children: Vec<Node>,
}

/// A node of the rendered tree.
pub enum Node {
    Elem(Element),
    Text(String),
}

/// Whether some class of `e` reads `c`.
pub open spec fn has_class(e: Element, c: Seq<char>) -> bool {
    exists|i: int| 0 <= i < e.classes@.len() && (#[trigger] e.classes@[i])@ == c
}

/// An attribute built from two string slices.
pub fn attr(name: &str, value: &str) -> (a: Attr)
    ensures
        a.name@ == name@,
        a.value@ == value@,
{
    Attr { name: String::from_str(name), value: String::from_str(value) }
}

} // verus!
