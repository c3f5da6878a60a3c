//! The dropdown select field: rendering, native-event decoding, and the
//! lifecycle state machine that drives the native widget controller.

use crate::markup::{attr, has_class, Attr, Element, Node};
use vstd::prelude::*;

verus! {

/// The view of an optional string property.
pub open spec fn opt_text(o: Option<String>) -> Option<Seq<char>> {
    match o {
        Some(s) => Some(s@),
        None => None,
    }
}

/// The payload decoded from the native widget's change event: the selected
/// value and its position (`-1` when nothing is selected).
pub struct SelectChangeEventData {
    pub value: String,
    pub index: i64,
}

/// The select field's internal message.
pub enum SelectMsg {
    Changed(SelectChangeEventData),
}

/// Properties of the select field.
pub struct SelectProps {
    pub children: Vec<Node>,
    pub select_width_class: String,
    pub id: String,
    pub label: Option<String>,
    pub fixed_position: bool,
    pub absolute_position: Option<(i32, i32)>,
    pub selected_value: Option<String>,
}

/// One field of a change event's detail payload, as the boundary finds it:
/// absent, a string, a number, or a value of some other shape.
pub enum DetailField {
    Missing,
    Text(String),
    Number(i64),
    Other,
}

/// The loosely-typed detail payload of a native change event.
pub struct ChangeDetail {
    pub value: DetailField,
    pub index: DetailField,
}

/// The detail payload failed to match the expected `{value, index}` shape.
/// The producing widget is trusted to supply that shape, so this marks an
/// unrecoverable contract violation, never a condition to recover from.
#[derive(PartialEq, Eq, Structural, Debug)]
pub struct DecodeError;

/// Whether a detail payload has the expected shape: a string `value` and a
/// numeric `index`.
pub open spec fn detail_well_shaped(d: ChangeDetail) -> bool {
    d.value is Text && d.index is Number
}

/// Decodes a change event's detail payload into the typed
/// [`SelectChangeEventData`], exactly when the payload has a string `value`
/// and a numeric `index`; any other shape is a decode failure.
pub fn decode_change_detail(detail: ChangeDetail) -> (r: Result<
    SelectChangeEventData,
    DecodeError,
>)
    ensures
        r is Ok <==> detail_well_shaped(detail),
        r matches Ok(d) ==> ({
            &&& detail.value matches DetailField::Text(v)
            &&& d.value == v
            &&& detail.index matches DetailField::Number(i)
            &&& d.index == i
        }),
{
    match (detail.value, detail.index) {
        (DetailField::Text(value), DetailField::Number(index)) => Ok(SelectChangeEventData {
            value,
            index,
        }),
        _ => Err(DecodeError),
    }
}

/// What the native change-event handler decides: whether to stop the event's
/// propagation, and the internal message decoded from its detail.
pub struct NativeChangeOutcome {
    pub stop_propagation: bool,
    pub decoded: Result<SelectMsg, DecodeError>,
}

/// Handles a native change event: propagation is always stopped, so the host
/// page never sees the raw event twice, and the detail is decoded into the
/// internal message exactly when it has the expected shape.
pub fn on_native_change(detail: ChangeDetail) -> (r: NativeChangeOutcome)
    ensures
        r.stop_propagation,
        r.decoded is Ok <==> detail_well_shaped(detail),
        r.decoded matches Ok(m) ==> ({
            &&& m matches SelectMsg::Changed(d)
            &&& detail.value matches DetailField::Text(v)
            &&& d.value == v
            &&& detail.index matches DetailField::Number(i)
            &&& d.index == i
        }),
{
    let decoded = match decode_change_detail(detail) {
        Ok(data) => Ok(SelectMsg::Changed(data)),
        Err(e) => Err(e),
    };
    NativeChangeOutcome { stop_propagation: true, decoded }
}

/// A bare styled `span`: no identifier, one class, no attributes, no
/// children.
pub open spec fn is_bare_span(n: Node, class: Seq<char>) -> bool {
    &&& n matches Node::Elem(e)
    &&& e.tag@ == "span"@
    &&& e.id@ == Seq::<char>::empty()
    &&& e.classes@.len() == 1
    &&& e.classes@[0]@ == class
    &&& e.attrs@.len() == 0
    &&& e.children@.len() == 0
}

/// The identifier of the select field's floating label.
pub open spec fn label_id_text(id: Seq<char>) -> Seq<char> {
    id + "-label"@
}

/// The identifier of the select field's selected-text display.
pub open spec fn selected_text_id_text(id: Seq<char>) -> Seq<char> {
    id + "-selected-text"@
}

/// The floating label: a `span` with the label identifier, carrying the
/// label text as its only child.
pub open spec fn is_floating_label(n: Node, label_id: Seq<char>, text: Seq<char>) -> bool {
    &&& n matches Node::Elem(e)
    &&& e.tag@ == "span"@
    &&& e.id@ == label_id
    &&& e.classes@.len() == 1
    &&& e.classes@[0]@ == "mdc-floating-label"@
    &&& e.attrs@.len() == 0
    &&& e.children@.len() == 1
    &&& e.children@[0] matches Node::Text(t)
    &&& t@ == text
}

/// The selected-text region: a container `span` wrapping the display `span`
/// that carries the selected-text identifier.
pub open spec fn is_selected_text_container(n: Node, selected_text_id: Seq<char>) -> bool {
    &&& n matches Node::Elem(e)
    &&& e.tag@ == "span"@
    &&& e.id@ == Seq::<char>::empty()
    &&& e.classes@.len() == 1
    &&& e.classes@[0]@ == "mdc-select__selected-text-container"@
    &&& e.attrs@.len() == 0
    &&& e.children@.len() == 1
    &&& e.children@[0] matches Node::Elem(inner)
    &&& inner.tag@ == "span"@
    &&& inner.id@ == selected_text_id
    &&& inner.classes@.len() == 1
    &&& inner.classes@[0]@ == "mdc-select__selected-text"@
    &&& inner.attrs@.len() == 0
    &&& inner.children@.len() == 0
}

/// One of the dropdown icon's two polygons.
pub open spec fn is_icon_polygon(n: Node, class: Seq<char>, points: Seq<char>) -> bool {
    &&& n matches Node::Elem(e)
    &&& e.tag@ == "polygon"@
    &&& e.id@ == Seq::<char>::empty()
    &&& e.classes@.len() == 1
    &&& e.classes@[0]@ == class
    &&& e.attrs@.len() == 3
    &&& e.attrs@[0].name@ == "stroke"@ && e.attrs@[0].value@ == "none"@
    &&& e.attrs@[1].name@ == "fill-rule"@ && e.attrs@[1].value@ == "evenodd"@
    &&& e.attrs@[2].name@ == "points"@ && e.attrs@[2].value@ == points
    &&& e.children@.len() == 0
}

/// The dropdown icon: a `span` wrapping the `svg` graphic with its inactive
/// and active polygons.
pub open spec fn is_dropdown_icon(n: Node) -> bool {
    &&& n matches Node::Elem(e)
    &&& e.tag@ == "span"@
    &&& e.id@ == Seq::<char>::empty()
    &&& e.classes@.len() == 1
    &&& e.classes@[0]@ == "mdc-select__dropdown-icon"@
    &&& e.attrs@.len() == 0
    &&& e.children@.len() == 1
    &&& e.children@[0] matches Node::Elem(svg)
    &&& svg.tag@ == "svg"@
    &&& svg.id@ == Seq::<char>::empty()
    &&& svg.classes@.len() == 1
    &&& svg.classes@[0]@ == "mdc-select__dropdown-icon-graphic"@
    &&& svg.attrs@.len() == 2
    &&& svg.attrs@[0].name@ == "viewBox"@ && svg.attrs@[0].value@ == "7 10 10 5"@
    &&& svg.attrs@[1].name@ == "focusable"@ && svg.attrs@[1].value@ == "false"@
    &&& svg.children@.len() == 2
    &&& is_icon_polygon(
        svg.children@[0],
        "mdc-select__dropdown-icon-inactive"@,
        "7 10 12 15 17 10"@,
    )
    &&& is_icon_polygon(
        svg.children@[1],
        "mdc-select__dropdown-icon-active"@,
        "7 15 12 10 17 15"@,
    )
}

/// The anchor region: the ARIA button that opens the menu, holding the
/// ripple, the floating label (only when a label is given), the selected-text
/// region, the dropdown icon, and the line ripple, in that order.
pub open spec fn is_anchor(n: Node, id: Seq<char>, label: Option<Seq<char>>) -> bool {
    &&& n matches Node::Elem(e)
    &&& e.tag@ == "div"@
    &&& e.id@ == Seq::<char>::empty()
    &&& e.classes@.len() == 1
    &&& e.classes@[0]@ == "mdc-select__anchor"@
    &&& e.attrs@.len() == 4
    &&& e.attrs@[0].name@ == "role"@ && e.attrs@[0].value@ == "button"@
    &&& e.attrs@[1].name@ == "aria-haspopup"@ && e.attrs@[1].value@ == "listbox"@
    &&& e.attrs@[2].name@ == "aria-expanded"@ && e.attrs@[2].value@ == "false"@
    &&& e.attrs@[3].name@ == "aria-labelledby"@
    &&& e.attrs@[3].value@ == label_id_text(id) + " "@ + selected_text_id_text(id)
    &&& match label {
        None => {
            &&& e.children@.len() == 4
            &&& is_bare_span(e.children@[0], "mdc-select__ripple"@)
            &&& is_selected_text_container(e.children@[1], selected_text_id_text(id))
            &&& is_dropdown_icon(e.children@[2])
            &&& is_bare_span(e.children@[3], "mdc-line-ripple"@)
        },
        Some(text) => {
            &&& e.children@.len() == 5
            &&& is_bare_span(e.children@[0], "mdc-select__ripple"@)
            &&& is_floating_label(e.children@[1], label_id_text(id), text)
            &&& is_selected_text_container(e.children@[2], selected_text_id_text(id))
            &&& is_dropdown_icon(e.children@[3])
            &&& is_bare_span(e.children@[4], "mdc-line-ripple"@)
        },
    }
}

/// The menu surface's positioning variant: fixed when the fixed-position flag
/// is set, full-width otherwise.
pub open spec fn menu_variant_class(fixed: bool) -> Seq<char> {
    if fixed {
        "mdc-menu-surface--fixed"@
    } else {
        "mdc-menu-surface--fullwidth"@
    }
}

/// The aria label of the option list: the label text (empty when none is
/// given) followed by " listbox".
pub open spec fn listbox_aria_label(label: Option<Seq<char>>) -> Seq<char> {
    (match label {
        Some(t) => t,
        None => Seq::<char>::empty(),
    }) + " listbox"@
}

/// The menu surface: the dropdown containing the ARIA listbox that wraps the
/// supplied option markup unchanged.
pub open spec fn is_menu_surface(
    n: Node,
    width: Seq<char>,
    fixed: bool,
    label: Option<Seq<char>>,
    children: Seq<Node>,
) -> bool {
    &&& n matches Node::Elem(e)
    &&& e.tag@ == "div"@
    &&& e.id@ == Seq::<char>::empty()
    &&& e.classes@.len() == 5
    &&& e.classes@[0]@ == "mdc-menu"@
    &&& e.classes@[1]@ == "mdc-menu-surface"@
    &&& e.classes@[2]@ == "mdc-select__menu"@
    &&& e.classes@[3]@ == width
    &&& e.classes@[4]@ == menu_variant_class(fixed)
    &&& e.attrs@.len() == 0
    &&& e.children@.len() == 1
    &&& e.children@[0] matches Node::Elem(list)
    &&& list.tag@ == "ul"@
    &&& list.id@ == Seq::<char>::empty()
    &&& list.classes@.len() == 1
    &&& list.classes@[0]@ == "mdc-deprecated-list"@
    &&& list.attrs@.len() == 2
    &&& list.attrs@[0].name@ == "role"@ && list.attrs@[0].value@ == "listbox"@
    &&& list.attrs@[1].name@ == "aria-label"@
    &&& list.attrs@[1].value@ == listbox_aria_label(label)
    &&& list.children@ == children
}

/// The whole select field: the wrapper carrying the identifier and the
/// composed style classes (with the no-label variant exactly when no label is
/// given), wrapping the anchor region and the menu surface.
pub open spec fn is_select_markup(
    n: Node,
    id: Seq<char>,
    width: Seq<char>,
    label: Option<Seq<char>>,
    fixed: bool,
    children: Seq<Node>,
) -> bool {
    &&& n matches Node::Elem(e)
    &&& e.tag@ == "div"@
    &&& e.id@ == id
    &&& (match label {
        None => e.classes@.len() == 4 && e.classes@[3]@ == "mdc-select--no-label"@,
        Some(_) => e.classes@.len() == 3,
    })
    &&& e.classes@[0]@ == "mdc-select"@
    &&& e.classes@[1]@ == "mdc-select--filled"@
    &&& e.classes@[2]@ == width
    &&& e.attrs@.len() == 0
    &&& e.children@.len() == 2
    &&& is_anchor(e.children@[0], id, label)
    &&& is_menu_surface(e.children@[1], width, fixed, label, children)
}

/// The wrapper element of a rendered select field.
pub open spec fn select_root(n: Node) -> Element
    recommends
        n is Elem,
{
    n->Elem_0
}

/// The anchor region of a rendered select field.
pub open spec fn select_anchor(n: Node) -> Element {
    select_root(n).children@[0]->Elem_0
}

/// The menu surface of a rendered select field.
pub open spec fn select_menu(n: Node) -> Element {
    select_root(n).children@[1]->Elem_0
}

/// The option list of a rendered select field: the ARIA listbox inside the
/// menu surface.
pub open spec fn select_listbox(n: Node) -> Element {
    select_menu(n).children@[0]->Elem_0
}

/// Whether a node is a floating-label element: a `span` carrying the
/// floating-label class.
pub open spec fn is_floating_label_span(n: Node) -> bool {
    n matches Node::Elem(e) && e.tag@ == "span"@ && has_class(e, "mdc-floating-label"@)
}

/// How many floating-label elements the tree rooted at `n` holds.
pub open spec fn floating_label_count(n: Node) -> nat
    decreases n,
{
    match n {
        Node::Text(_) => 0,
        Node::Elem(e) => (if is_floating_label_span(n) {
            1nat
        } else {
            0nat
        }) + floating_label_count_upto(e.children, e.children.len() as int),
    }
}

/// How many floating-label elements the trees rooted at the first `k` nodes
/// of `children` hold, together.
pub open spec fn floating_label_count_upto(children: Vec<Node>, k: int) -> nat
    decreases children, k
    when 0 <= k <= children@.len()
    via floating_label_count_upto_decreases
{
    if k <= 0 {
        0
    } else {
        floating_label_count_upto(children, k - 1) + floating_label_count(children@[k - 1])
    }
}

#[via_fn]
proof fn floating_label_count_upto_decreases(children: Vec<Node>, k: int) {
    if 0 < k <= children@.len() {
        assert(decreases_to!(children => children@[k - 1]));
    }
}

/// When no label is given, no floating-label element stands among the
/// anchor's children and the wrapper carries the no-label style variant; when
/// a label is given, exactly one floating-label element stands there — second
/// among the anchor's children — holding the label text, and the wrapper adds
/// no variant class of its own (it can still carry the no-label class when
/// the host passes that very class as the width class).
pub proof fn lemma_floating_label(
    n: Node,
    id: Seq<char>,
    width: Seq<char>,
    label: Option<Seq<char>>,
    fixed: bool,
    children: Seq<Node>,
)
    requires
        is_select_markup(n, id, width, label, fixed, children),
    ensures
        label is None ==> forall|i: int|
            0 <= i < select_anchor(n).children@.len() ==> !is_floating_label_span(
                #[trigger] select_anchor(n).children@[i],
            ),
        label is None ==> has_class(select_root(n), "mdc-select--no-label"@),
        label matches Some(text) ==> ({
            &&& is_floating_label(select_anchor(n).children@[1], label_id_text(id), text)
            &&& is_floating_label_span(select_anchor(n).children@[1])
            &&& forall|i: int|
                0 <= i < select_anchor(n).children@.len() && i != 1 ==> !is_floating_label_span(
                    #[trigger] select_anchor(n).children@[i],
                )
        }),
        label is Some ==> (has_class(select_root(n), "mdc-select--no-label"@) <==> width
            == "mdc-select--no-label"@),
{
    reveal_strlit("mdc-floating-label");
    reveal_strlit("mdc-select__ripple");
    reveal_strlit("mdc-select__selected-text-container");
    reveal_strlit("mdc-select__dropdown-icon");
    reveal_strlit("mdc-line-ripple");
    reveal_strlit("mdc-select");
    reveal_strlit("mdc-select--filled");
    reveal_strlit("mdc-select--no-label");
    assert("mdc-select__ripple"@ != "mdc-floating-label"@) by {
        assert("mdc-select__ripple"@[4] == 's');
        assert("mdc-floating-label"@[4] == 'f');
    }
    assert("mdc-select__selected-text-container"@ != "mdc-floating-label"@) by {
        assert("mdc-select__selected-text-container"@.len() == 35);
        assert("mdc-floating-label"@.len() == 18);
    }
    assert("mdc-select__dropdown-icon"@ != "mdc-floating-label"@) by {
        assert("mdc-select__dropdown-icon"@.len() == 25);
        assert("mdc-floating-label"@.len() == 18);
    }
    assert("mdc-line-ripple"@ != "mdc-floating-label"@) by {
        assert("mdc-line-ripple"@.len() == 15);
        assert("mdc-floating-label"@.len() == 18);
    }
    assert("mdc-select--filled"@ != "mdc-select--no-label"@) by {
        assert("mdc-select--filled"@.len() == 18);
        assert("mdc-select--no-label"@.len() == 20);
    }
    assert("mdc-select"@ != "mdc-select--no-label"@) by {
        assert("mdc-select"@.len() == 10);
        assert("mdc-select--no-label"@.len() == 20);
    }
    let anchor = select_anchor(n);
    match label {
        None => {
            assert(has_class(select_root(n), "mdc-select--no-label"@)) by {
                assert((select_root(n).classes@[3])@ == "mdc-select--no-label"@);
            }
            assert forall|i: int| 0 <= i < anchor.children@.len() implies !is_floating_label_span(
                #[trigger] anchor.children@[i],
            ) by {
                assert(anchor.children@.len() == 4);
            }
        },
        Some(_text) => {
            assert(is_floating_label_span(anchor.children@[1])) by {
                let e = anchor.children@[1]->Elem_0;
                assert((e.classes@[0])@ == "mdc-floating-label"@);
            }
            assert forall|i: int|
                0 <= i < anchor.children@.len() && i != 1 implies !is_floating_label_span(
                #[trigger] anchor.children@[i],
            ) by {
                assert(anchor.children@.len() == 5);
            }
        },
    }
}

/// Over the whole rendered tree, the floating label is unique: the tree
/// holds exactly one floating-label element when a label is given and none
/// when not, beyond whatever the supplied option markup itself brings along.
pub proof fn lemma_floating_label_unique(
    n: Node,
    id: Seq<char>,
    width: Seq<char>,
    label: Option<Seq<char>>,
    fixed: bool,
    children: Seq<Node>,
)
    requires
        is_select_markup(n, id, width, label, fixed, children),
    ensures
        floating_label_count(n) == (if label is Some {
            1nat
        } else {
            0nat
        }) + floating_label_count_upto(
            select_listbox(n).children,
            select_listbox(n).children.len() as int,
        ),
{
    reveal_strlit("span");
    reveal_strlit("div");
    reveal_strlit("ul");
    reveal_strlit("svg");
    reveal_strlit("polygon");
    reveal_strlit("mdc-floating-label");
    reveal_strlit("mdc-select__ripple");
    reveal_strlit("mdc-select__selected-text-container");
    reveal_strlit("mdc-select__selected-text");
    reveal_strlit("mdc-select__dropdown-icon");
    reveal_strlit("mdc-line-ripple");
    assert("div"@ != "span"@) by {
        assert("div"@.len() == 3);
        assert("span"@.len() == 4);
    }
    assert("ul"@ != "span"@) by {
        assert("ul"@.len() == 2);
        assert("span"@.len() == 4);
    }
    assert("svg"@ != "span"@) by {
        assert("svg"@.len() == 3);
        assert("span"@.len() == 4);
    }
    assert("polygon"@ != "span"@) by {
        assert("polygon"@.len() == 7);
        assert("span"@.len() == 4);
    }
    assert("mdc-select__ripple"@ != "mdc-floating-label"@) by {
        assert("mdc-select__ripple"@[4] == 's');
        assert("mdc-floating-label"@[4] == 'f');
    }
    assert("mdc-select__selected-text-container"@ != "mdc-floating-label"@) by {
        assert("mdc-select__selected-text-container"@.len() == 35);
        assert("mdc-floating-label"@.len() == 18);
    }
    assert("mdc-select__selected-text"@ != "mdc-floating-label"@) by {
        assert("mdc-select__selected-text"@.len() == 25);
        assert("mdc-floating-label"@.len() == 18);
    }
    assert("mdc-select__dropdown-icon"@ != "mdc-floating-label"@) by {
        assert("mdc-select__dropdown-icon"@.len() == 25);
        assert("mdc-floating-label"@.len() == 18);
    }
    assert("mdc-line-ripple"@ != "mdc-floating-label"@) by {
        assert("mdc-line-ripple"@.len() == 15);
        assert("mdc-floating-label"@.len() == 18);
    }
    let root = select_root(n);
    let anchor_n = root.children@[0];
    let anchor = select_anchor(n);
    let menu_n = root.children@[1];
    let menu = select_menu(n);
    let list_n = menu.children@[0];
    let list = select_listbox(n);
    // The leaves the component renders hold no floating label of their own.
    let sv = anchor.children@[if label is Some {
        2int
    } else {
        1int
    }];
    let stc = sv->Elem_0;
    assert(floating_label_count(stc.children@[0]) == 0) by {
        let inner = stc.children@[0]->Elem_0;
        assert(floating_label_count_upto(inner.children, 0) == 0);
    }
    assert(floating_label_count(sv) == 0) by {
        assert(floating_label_count_upto(stc.children, 0) == 0);
        assert(floating_label_count_upto(stc.children, 1) == floating_label_count(
            stc.children@[0],
        ));
    }
    let icon_n = anchor.children@[if label is Some {
        3int
    } else {
        2int
    }];
    let icon = icon_n->Elem_0;
    let svg_n = icon.children@[0];
    let svg = svg_n->Elem_0;
    assert(floating_label_count(svg.children@[0]) == 0) by {
        let poly = svg.children@[0]->Elem_0;
        assert(floating_label_count_upto(poly.children, 0) == 0);
    }
    assert(floating_label_count(svg.children@[1]) == 0) by {
        let poly = svg.children@[1]->Elem_0;
        assert(floating_label_count_upto(poly.children, 0) == 0);
    }
    assert(floating_label_count(svg_n) == 0) by {
        assert(floating_label_count_upto(svg.children, 0) == 0);
        assert(floating_label_count_upto(svg.children, 1) == floating_label_count(
            svg.children@[0],
        ));
        assert(floating_label_count_upto(svg.children, 2) == floating_label_count_upto(
            svg.children,
            1,
        ) + floating_label_count(svg.children@[1]));
    }
    assert(floating_label_count(icon_n) == 0) by {
        assert(floating_label_count_upto(icon.children, 0) == 0);
        assert(floating_label_count_upto(icon.children, 1) == floating_label_count(
            icon.children@[0],
        ));
    }
    let ripple_n = anchor.children@[0];
    assert(floating_label_count(ripple_n) == 0) by {
        let e = ripple_n->Elem_0;
        assert(floating_label_count_upto(e.children, 0) == 0);
    }
    let line_n = anchor.children@[if label is Some {
        4int
    } else {
        3int
    }];
    assert(floating_label_count(line_n) == 0) by {
        let e = line_n->Elem_0;
        assert(floating_label_count_upto(e.children, 0) == 0);
    }
    // The anchor contributes exactly the label's own floating label.
    match label {
        None => {
            assert(floating_label_count(anchor_n) == 0) by {
                assert(floating_label_count_upto(anchor.children, 0) == 0);
                assert(floating_label_count_upto(anchor.children, 1) == floating_label_count(
                    anchor.children@[0],
                ));
                assert(floating_label_count_upto(anchor.children, 2) == floating_label_count_upto(
                    anchor.children,
                    1,
                ) + floating_label_count(anchor.children@[1]));
                assert(floating_label_count_upto(anchor.children, 3) == floating_label_count_upto(
                    anchor.children,
                    2,
                ) + floating_label_count(anchor.children@[2]));
                assert(floating_label_count_upto(anchor.children, 4) == floating_label_count_upto(
                    anchor.children,
                    3,
                ) + floating_label_count(anchor.children@[3]));
            }
        },
        Some(_text) => {
            let label_n = anchor.children@[1];
            assert(floating_label_count(label_n) == 1) by {
                let e = label_n->Elem_0;
                assert(is_floating_label_span(label_n)) by {
                    assert((e.classes@[0])@ == "mdc-floating-label"@);
                }
                assert(floating_label_count_upto(e.children, 0) == 0);
                assert(floating_label_count_upto(e.children, 1) == floating_label_count(
                    e.children@[0],
                ));
            }
            assert(floating_label_count(anchor_n) == 1) by {
                assert(floating_label_count_upto(anchor.children, 0) == 0);
                assert(floating_label_count_upto(anchor.children, 1) == floating_label_count(
                    anchor.children@[0],
                ));
                assert(floating_label_count_upto(anchor.children, 2) == floating_label_count_upto(
                    anchor.children,
                    1,
                ) + floating_label_count(anchor.children@[1]));
                assert(floating_label_count_upto(anchor.children, 3) == floating_label_count_upto(
                    anchor.children,
                    2,
                ) + floating_label_count(anchor.children@[2]));
                assert(floating_label_count_upto(anchor.children, 4) == floating_label_count_upto(
                    anchor.children,
                    3,
                ) + floating_label_count(anchor.children@[3]));
                assert(floating_label_count_upto(anchor.children, 5) == floating_label_count_upto(
                    anchor.children,
                    4,
                ) + floating_label_count(anchor.children@[4]));
            }
        },
    }
    // The menu surface contributes exactly what the option markup brings.
    let host = floating_label_count_upto(list.children, list.children.len() as int);
    assert(floating_label_count(list_n) == host);
    assert(floating_label_count(menu_n) == host) by {
        assert(floating_label_count_upto(menu.children, 0) == 0);
        assert(floating_label_count_upto(menu.children, 1) == floating_label_count(
            menu.children@[0],
        ));
    }
    assert(floating_label_count_upto(root.children, 0) == 0);
    assert(floating_label_count_upto(root.children, 1) == floating_label_count(anchor_n));
    assert(floating_label_count_upto(root.children, 2) == floating_label_count_upto(
        root.children,
        1,
    ) + floating_label_count(menu_n));
}

/// The menu surface's variant slot holds the fixed variant exactly when the
/// fixed-position flag is set, and the full-width variant exactly otherwise:
/// the two are mutually exclusive. As a class of the whole list, either
/// variant can otherwise appear only when the host passes it as the width
/// class.
pub proof fn lemma_menu_variant(
    n: Node,
    id: Seq<char>,
    width: Seq<char>,
    label: Option<Seq<char>>,
    fixed: bool,
    children: Seq<Node>,
)
    requires
        is_select_markup(n, id, width, label, fixed, children),
    ensures
        menu_variant_class(true) != menu_variant_class(false),
        (select_menu(n).classes@[4]@ == menu_variant_class(true)) <==> fixed,
        (select_menu(n).classes@[4]@ == menu_variant_class(false)) <==> !fixed,
        has_class(select_menu(n), menu_variant_class(true)) <==> (fixed || width
            == menu_variant_class(true)),
        has_class(select_menu(n), menu_variant_class(false)) <==> (!fixed || width
            == menu_variant_class(false)),
{
    reveal_strlit("mdc-menu-surface--fixed");
    reveal_strlit("mdc-menu-surface--fullwidth");
    reveal_strlit("mdc-menu");
    reveal_strlit("mdc-menu-surface");
    reveal_strlit("mdc-select__menu");
    let menu = select_menu(n);
    assert(menu_variant_class(true).len() == 23);
    assert(menu_variant_class(false).len() == 27);
    if fixed || width == menu_variant_class(true) {
        assert(has_class(menu, menu_variant_class(true))) by {
            if fixed {
                assert((menu.classes@[4])@ == menu_variant_class(true));
            } else {
                assert((menu.classes@[3])@ == menu_variant_class(true));
            }
        }
    }
    if !fixed || width == menu_variant_class(false) {
        assert(has_class(menu, menu_variant_class(false))) by {
            if !fixed {
                assert((menu.classes@[4])@ == menu_variant_class(false));
            } else {
                assert((menu.classes@[3])@ == menu_variant_class(false));
            }
        }
    }
}

/// A list holding one class, built from a string slice.
fn one_class(class: &str) -> (v: Vec<String>)
    ensures
        v@.len() == 1,
        v@[0]@ == class@,
{
    let mut v: Vec<String> = Vec::new();
    v.push(String::from_str(class));
    v
}

/// A bare styled `span`.
fn bare_span(class: &str) -> (n: Node)
    ensures
        is_bare_span(n, class@),
{
    Node::Elem(
        Element {
            tag: String::from_str("span"),
            id: String::new(),
            classes: one_class(class),
            attrs: Vec::new(),
            children: Vec::new(),
        },
    )
}

/// The floating label with its identifier and text.
fn floating_label(label_id: String, text: &String) -> (n: Node)
    ensures
        is_floating_label(n, label_id@, text@),
{
    let mut children: Vec<Node> = Vec::new();
    children.push(Node::Text(text.clone()));
    Node::Elem(
        Element {
            tag: String::from_str("span"),
            id: label_id,
            classes: one_class("mdc-floating-label"),
            attrs: Vec::new(),
            children,
        },
    )
}

/// The selected-text region.
fn selected_text_container(selected_text_id: String) -> (n: Node)
    ensures
        is_selected_text_container(n, selected_text_id@),
{
    let inner = Node::Elem(
        Element {
            tag: String::from_str("span"),
            id: selected_text_id,
            classes: one_class("mdc-select__selected-text"),
            attrs: Vec::new(),
            children: Vec::new(),
        },
    );
    let mut children: Vec<Node> = Vec::new();
    children.push(inner);
    Node::Elem(
        Element {
            tag: String::from_str("span"),
            id: String::new(),
            classes: one_class("mdc-select__selected-text-container"),
            attrs: Vec::new(),
            children,
        },
    )
}

/// One polygon of the dropdown icon.
fn icon_polygon(class: &str, points: &str) -> (n: Node)
    ensures
        is_icon_polygon(n, class@, points@),
{
    let mut attrs: Vec<Attr> = Vec::new();
    attrs.push(attr("stroke", "none"));
    attrs.push(attr("fill-rule", "evenodd"));
    attrs.push(attr("points", points));
    Node::Elem(
        Element {
            tag: String::from_str("polygon"),
            id: String::new(),
            classes: one_class(class),
            attrs,
            children: Vec::new(),
        },
    )
}

/// The dropdown icon with its graphic.
fn dropdown_icon() -> (n: Node)
    ensures
        is_dropdown_icon(n),
{
    let mut svg_attrs: Vec<Attr> = Vec::new();
    svg_attrs.push(attr("viewBox", "7 10 10 5"));
    svg_attrs.push(attr("focusable", "false"));
    let mut polygons: Vec<Node> = Vec::new();
    polygons.push(icon_polygon("mdc-select__dropdown-icon-inactive", "7 10 12 15 17 10"));
    polygons.push(icon_polygon("mdc-select__dropdown-icon-active", "7 15 12 10 17 15"));
    let svg = Node::Elem(
        Element {
            tag: String::from_str("svg"),
            id: String::new(),
            classes: one_class("mdc-select__dropdown-icon-graphic"),
            attrs: svg_attrs,
            children: polygons,
        },
    );
    let mut children: Vec<Node> = Vec::new();
    children.push(svg);
    Node::Elem(
        Element {
            tag: String::from_str("span"),
            id: String::new(),
            classes: one_class("mdc-select__dropdown-icon"),
            attrs: Vec::new(),
            children,
        },
    )
}

/// The anchor region.
fn anchor(id: &String, label: &Option<String>) -> (n: Node)
    ensures
        is_anchor(n, id@, opt_text(*label)),
{
    let mut label_id = id.clone();
    label_id.append("-label");
    let mut selected_text_id = id.clone();
    selected_text_id.append("-selected-text");
    let mut labelledby = label_id.clone();
    labelledby.append(" ");
    labelledby.append(selected_text_id.as_str());
    let mut attrs: Vec<Attr> = Vec::new();
    attrs.push(attr("role", "button"));
    attrs.push(attr("aria-haspopup", "listbox"));
    attrs.push(attr("aria-expanded", "false"));
    attrs.push(Attr { name: String::from_str("aria-labelledby"), value: labelledby });
    let mut children: Vec<Node> = Vec::new();
    children.push(bare_span("mdc-select__ripple"));
    match label {
        Some(text) => children.push(floating_label(label_id, text)),
        None => (),
    }
    children.push(selected_text_container(selected_text_id));
    children.push(dropdown_icon());
    children.push(bare_span("mdc-line-ripple"));
    Node::Elem(
        Element {
            tag: String::from_str("div"),
            id: String::new(),
            classes: one_class("mdc-select__anchor"),
            attrs,
            children,
        },
    )
}

/// The menu surface wrapping the supplied option markup.
fn menu_surface(width: &String, fixed: bool, label: &Option<String>, children: Vec<Node>) -> (n:
    Node)
    ensures
        is_menu_surface(n, width@, fixed, opt_text(*label), children@),
{
    let mut classes: Vec<String> = Vec::new();
    classes.push(String::from_str("mdc-menu"));
    classes.push(String::from_str("mdc-menu-surface"));
    classes.push(String::from_str("mdc-select__menu"));
    classes.push(width.clone());
    if fixed {
        classes.push(String::from_str("mdc-menu-surface--fixed"));
    } else {
        classes.push(String::from_str("mdc-menu-surface--fullwidth"));
    }
    let mut aria_label = match label {
        Some(text) => text.clone(),
        None => String::new(),
    };
    aria_label.append(" listbox");
    let mut list_attrs: Vec<Attr> = Vec::new();
    list_attrs.push(attr("role", "listbox"));
    list_attrs.push(Attr { name: String::from_str("aria-label"), value: aria_label });
    let list = Node::Elem(
        Element {
            tag: String::from_str("ul"),
            id: String::new(),
            classes: one_class("mdc-deprecated-list"),
            attrs: list_attrs,
            children,
        },
    );
    let mut menu_children: Vec<Node> = Vec::new();
    menu_children.push(list);
    Node::Elem(
        Element {
            tag: String::from_str("div"),
            id: String::new(),
            classes,
            attrs: Vec::new(),
            children: menu_children,
        },
    )
}

/// An imperative step the host shell must perform against the native widget
/// controller, in the order emitted.
pub enum SelectAction {
    /// Construct the controller against the rendered root element.
    Construct,
    /// Apply the pre-selected value to the controller.
    SetValue(String),
    /// Register the change listener on the controller.
    Listen,
    /// Unregister the change listener from the controller.
    Unlisten,
    /// Destroy the controller, releasing what the native widget allocated.
    DestroyController,
}

/// The steps of a mount: construct the controller, apply the pre-selected
/// value when one was supplied, then register the change listener.
pub open spec fn mount_actions(selected_value: Option<String>) -> Seq<SelectAction> {
    match selected_value {
        Some(v) => seq![
            SelectAction::Construct,
            SelectAction::SetValue(v),
            SelectAction::Listen,
        ],
        None => seq![SelectAction::Construct, SelectAction::Listen],
    }
}

/// The steps of a teardown: unregister the listener, then destroy the
/// controller, so no event can fire against a half-destroyed controller.
pub open spec fn teardown_actions() -> Seq<SelectAction> {
    seq![SelectAction::Unlisten, SelectAction::DestroyController]
}

/// A lifecycle event handed to the select field by its host.
pub enum SelectEvent {
    /// A render completed; carries whether it was the first render and
    /// whether the component's root element was found in the rendered tree.
    Rendered { first: bool, present: bool },
    /// The component is being unmounted.
    Destroyed,
}

/// Whether a lifecycle step from a state that `owns` the controller
/// constructs one: only on a first render whose root element exists, and only
/// when none is owned yet.
pub open spec fn step_constructs(owns: bool, e: SelectEvent) -> bool {
    e matches SelectEvent::Rendered { first, present } && first && present && !owns
}

/// Whether a lifecycle step from a state that `owns` the controller releases
/// it: only on destruction, and only when one is owned.
pub open spec fn step_releases(owns: bool, e: SelectEvent) -> bool {
    e is Destroyed && owns
}

/// Whether the controller is owned after one lifecycle step.
pub open spec fn step_state(owns: bool, e: SelectEvent) -> bool {
    match e {
        SelectEvent::Rendered { first, present } => owns || (first && present),
        SelectEvent::Destroyed => false,
    }
}

/// Whether the controller is owned after a whole run of lifecycle events.
pub open spec fn run_state(owns: bool, events: Seq<SelectEvent>) -> bool
    decreases events.len(),
{
    if events.len() == 0 {
        owns
    } else {
        run_state(step_state(owns, events[0]), events.drop_first())
    }
}

/// How many controllers a run of lifecycle events constructs.
pub open spec fn construct_count(owns: bool, events: Seq<SelectEvent>) -> nat
    decreases events.len(),
{
    if events.len() == 0 {
        0
    } else {
        (if step_constructs(owns, events[0]) {
            1nat
        } else {
            0nat
        }) + construct_count(step_state(owns, events[0]), events.drop_first())
    }
}

/// How many controllers a run of lifecycle events releases.
pub open spec fn release_count(owns: bool, events: Seq<SelectEvent>) -> nat
    decreases events.len(),
{
    if events.len() == 0 {
        0
    } else {
        (if step_releases(owns, events[0]) {
            1nat
        } else {
            0nat
        }) + release_count(step_state(owns, events[0]), events.drop_first())
    }
}

/// Whether a lifecycle event reports a completed first render.
pub open spec fn is_first_render(e: SelectEvent) -> bool {
    e matches SelectEvent::Rendered { first, .. } && first
}

/// A run that holds no first render constructs no controller.
proof fn lemma_no_first_render_no_construct(owns: bool, events: Seq<SelectEvent>)
    requires
        forall|i: int| 0 <= i < events.len() ==> !is_first_render(#[trigger] events[i]),
    ensures
        construct_count(owns, events) == 0,
    decreases events.len(),
{
    if events.len() > 0 {
        assert(!is_first_render(events[0]));
        lemma_no_first_render_no_construct(step_state(owns, events[0]), events.drop_first());
    }
}

/// The controller is constructed exactly once per mount, and never during
/// construction of the component: along any run of lifecycle events in which
/// only the very first may report a first render — as the host framework
/// guarantees of a mount — exactly one construction happens when that first
/// event is a first render whose root element exists, and none otherwise.
pub proof fn lemma_construct_once_per_mount(events: Seq<SelectEvent>)
    requires
        forall|i: int| 1 <= i < events.len() ==> !is_first_render(#[trigger] events[i]),
    ensures
        events.len() > 0 && step_constructs(false, events[0]) ==> construct_count(false, events)
            == 1,
        !(events.len() > 0 && step_constructs(false, events[0])) ==> construct_count(false, events)
            == 0,
{
    if events.len() > 0 {
        lemma_no_first_render_no_construct(step_state(false, events[0]), events.drop_first());
    }
}

/// Controllers are conserved along any run: what was constructed, plus one
/// for a controller already owned at the start, is what was released, plus
/// one for a controller still owned at the end. No construction is ever lost
/// and nothing is released twice.
pub proof fn lemma_controller_conservation(owns: bool, events: Seq<SelectEvent>)
    ensures
        construct_count(owns, events) + (if owns {
            1nat
        } else {
            0nat
        }) == release_count(owns, events) + (if run_state(owns, events) {
            1nat
        } else {
            0nat
        }),
    decreases events.len(),
{
    if events.len() > 0 {
        lemma_controller_conservation(step_state(owns, events[0]), events.drop_first());
    }
}

/// Teardown happens at most once per mount — exactly once when a controller
/// was constructed and the run ends with none owned — and when no controller
/// was ever constructed, destruction releases nothing.
pub proof fn lemma_release_at_most_once_per_mount(events: Seq<SelectEvent>)
    requires
        forall|i: int| 1 <= i < events.len() ==> !is_first_render(#[trigger] events[i]),
    ensures
        release_count(false, events) <= 1,
        construct_count(false, events) == 0 ==> release_count(false, events) == 0,
        !run_state(false, events) ==> release_count(false, events) == construct_count(
            false,
            events,
        ),
{
    lemma_construct_once_per_mount(events);
    lemma_controller_conservation(false, events);
}

/// Destruction releases the listener and destroys the controller exactly
/// once: a destroy from an owning state releases, leaves nothing owned, and
/// a second destroy — or one when nothing was ever constructed — releases
/// nothing.
pub proof fn lemma_destroy_exactly_once(owns: bool)
    ensures
        step_releases(owns, SelectEvent::Destroyed) == owns,
        !step_state(owns, SelectEvent::Destroyed),
        !step_releases(step_state(owns, SelectEvent::Destroyed), SelectEvent::Destroyed),
{
}

/// The select field's own state: whether it owns a native widget controller.
/// The controller handle itself lives with the host shell; the field tracks
/// ownership so that construction and teardown happen exactly once each.
pub struct Select {
    pub has_controller: bool,
}

impl Select {
    /// A fresh select field. Construction performs no widget step at all: the
    /// controller is only constructed once the root element exists, from
    /// [`Select::rendered`].
    pub fn create() -> (s: Select)
        ensures
            !s.has_controller,
    {
        Select { has_controller: false }
    }

    /// A property change always asks for a re-render and touches no widget
    /// state.
    pub fn changed(&mut self) -> (render: bool)
        ensures
            render,
            *final(self) == *old(self),
    {
        true
    }

    /// A render completed. On the first render whose root element exists, and
    /// only then, the mount steps are emitted — construct, optionally apply
    /// the pre-selected value, listen — and the field takes ownership of the
    /// controller. Every other render emits nothing and changes nothing.
    pub fn rendered(&mut self, first_render: bool, element_present: bool, selected_value: Option<
        String,
    >) -> (actions: Vec<SelectAction>)
        ensures
            final(self).has_controller == step_state(
                old(self).has_controller,
                SelectEvent::Rendered { first: first_render, present: element_present },
            ),
            step_constructs(
                old(self).has_controller,
                SelectEvent::Rendered { first: first_render, present: element_present },
            ) ==> actions@ =~= mount_actions(selected_value),
            !step_constructs(
                old(self).has_controller,
                SelectEvent::Rendered { first: first_render, present: element_present },
            ) ==> actions@ =~= Seq::<SelectAction>::empty() && *final(self) == *old(self),
    {
        let mut actions: Vec<SelectAction> = Vec::new();
        if first_render && element_present && !self.has_controller {
            actions.push(SelectAction::Construct);
            match selected_value {
                Some(v) => actions.push(SelectAction::SetValue(v)),
                None => (),
            }
            actions.push(SelectAction::Listen);
            self.has_controller = true;
        }
        actions
    }

    /// Relays a decoded change message to the host: the returned payload is
    /// handed to the host-supplied callback, exactly the data the message
    /// carries. A message never asks for a re-render.
    pub fn update(&mut self, msg: SelectMsg) -> (r: (SelectChangeEventData, bool))
        ensures
            *final(self) == *old(self),
            !r.1,
            msg matches SelectMsg::Changed(d) && r.0 == d,
    {
        match msg {
            SelectMsg::Changed(data) => (data, false),
        }
    }

    /// Renders the select field's markup: the exact DOM shape the native
    /// widget controller expects, with the style classes composed from the
    /// width class, the label's presence and the positioning flag, and the
    /// supplied option markup wrapped unchanged in the ARIA listbox.
    pub fn view(&self, props: SelectProps) -> (n: Node)
        ensures
            is_select_markup(
                n,
                props.id@,
                props.select_width_class@,
                opt_text(props.label),
                props.fixed_position,
                props.children@,
            ),
    {
        let mut classes: Vec<String> = Vec::new();
        classes.push(String::from_str("mdc-select"));
        classes.push(String::from_str("mdc-select--filled"));
        classes.push(props.select_width_class.clone());
        if props.label.is_none() {
            classes.push(String::from_str("mdc-select--no-label"));
        }
        let mut children: Vec<Node> = Vec::new();
        children.push(anchor(&props.id, &props.label));
        children.push(
            menu_surface(
                &props.select_width_class,
                props.fixed_position,
                &props.label,
                props.children,
            ),
        );
        Node::Elem(
            Element {
                tag: String::from_str("div"),
                id: props.id,
                classes,
                attrs: Vec::new(),
                children,
            },
        )
    }

    /// The component is being unmounted. When a controller is owned, the
    /// teardown steps are emitted — unlisten, then destroy — and ownership
    /// ends; when none was ever constructed, this is a no-op.
    pub fn destroy(&mut self) -> (actions: Vec<SelectAction>)
        ensures
            !final(self).has_controller,
            step_releases(old(self).has_controller, SelectEvent::Destroyed) ==> actions@
                =~= teardown_actions(),
            !step_releases(old(self).has_controller, SelectEvent::Destroyed) ==> actions@
                =~= Seq::<SelectAction>::empty(),
    {
        let mut actions: Vec<SelectAction> = Vec::new();
        if self.has_controller {
            actions.push(SelectAction::Unlisten);
            actions.push(SelectAction::DestroyController);
            self.has_controller = false;
        }
        actions
    }
}

} // verus!
