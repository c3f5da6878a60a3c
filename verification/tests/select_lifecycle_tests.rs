use mdc_components::select::{
    decode_change_detail, on_native_change, ChangeDetail, DetailField, Select, SelectAction,
    SelectMsg,
};

fn is_construct(a: &SelectAction) -> bool {
    matches!(a, SelectAction::Construct)
}

#[test]
fn mount_constructs_once_after_first_render() {
    let mut s = Select::create();
    assert!(!s.has_controller);
    let actions = s.rendered(true, true, None);
    assert_eq!(actions.len(), 2);
    assert!(matches!(actions[0], SelectAction::Construct));
    assert!(matches!(actions[1], SelectAction::Listen));
    assert!(s.has_controller);
    let later = s.rendered(false, true, None);
    assert!(later.is_empty());
    assert_eq!(actions.iter().filter(|a| is_construct(a)).count(), 1);
}

#[test]
fn mount_applies_preselected_value_before_listening() {
    let mut s = Select::create();
    let actions = s.rendered(true, true, Some(String::from("b")));
    assert_eq!(actions.len(), 3);
    assert!(matches!(actions[0], SelectAction::Construct));
    match &actions[1] {
        SelectAction::SetValue(v) => assert_eq!(v, "b"),
        _ => panic!("expected the pre-selected value to be applied"),
    }
    assert!(matches!(actions[2], SelectAction::Listen));
}

#[test]
fn no_construction_while_root_element_is_missing() {
    let mut s = Select::create();
    let actions = s.rendered(true, false, None);
    assert!(actions.is_empty());
    assert!(!s.has_controller);
}

#[test]
fn destroy_releases_listener_then_controller_exactly_once() {
    let mut s = Select::create();
    s.rendered(true, true, None);
    let teardown = s.destroy();
    assert_eq!(teardown.len(), 2);
    assert!(matches!(teardown[0], SelectAction::Unlisten));
    assert!(matches!(teardown[1], SelectAction::DestroyController));
    assert!(!s.has_controller);
    let again = s.destroy();
    assert!(again.is_empty());
}

#[test]
fn destroy_without_controller_is_a_no_op() {
    let mut s = Select::create();
    let teardown = s.destroy();
    assert!(teardown.is_empty());
    assert!(!s.has_controller);
}

#[test]
fn change_event_reaches_callback_exactly_once() {
    let detail = ChangeDetail {
        value: DetailField::Text(String::from("b")),
        index: DetailField::Number(1),
    };
    let outcome = on_native_change(detail);
    assert!(outcome.stop_propagation);
    let msg = outcome.decoded.expect("a well-shaped detail must decode");
    let mut s = Select::create();
    s.rendered(true, true, None);
    let mut invocations: Vec<(String, i64)> = Vec::new();
    let (payload, rerender) = s.update(msg);
    invocations.push((payload.value, payload.index));
    assert!(!rerender);
    assert_eq!(invocations.len(), 1);
    assert_eq!(invocations[0].0, "b");
    assert_eq!(invocations[0].1, 1);
}

#[test]
fn change_message_never_rerenders() {
    let mut s = Select::create();
    let data = decode_change_detail(ChangeDetail {
        value: DetailField::Text(String::from("a")),
        index: DetailField::Number(0),
    })
    .expect("a well-shaped detail must decode");
    let (_, rerender) = s.update(SelectMsg::Changed(data));
    assert!(!rerender);
    assert!(s.changed());
}

#[test]
fn malformed_detail_fails_decode_instead_of_partial_data() {
    let missing_value = ChangeDetail { value: DetailField::Missing, index: DetailField::Number(1) };
    assert!(decode_change_detail(missing_value).is_err());
    let wrong_value_shape =
        ChangeDetail { value: DetailField::Number(3), index: DetailField::Number(1) };
    assert!(decode_change_detail(wrong_value_shape).is_err());
    let missing_index = ChangeDetail { value: DetailField::Text(String::from("b")), index: DetailField::Missing };
    assert!(decode_change_detail(missing_index).is_err());
    let odd_index = ChangeDetail { value: DetailField::Text(String::from("b")), index: DetailField::Other };
    let outcome = on_native_change(odd_index);
    assert!(outcome.stop_propagation);
    assert!(outcome.decoded.is_err());
}

#[test]
fn decode_accepts_unselected_index() {
    let detail = ChangeDetail {
        value: DetailField::Text(String::new()),
        index: DetailField::Number(-1),
    };
    let data = decode_change_detail(detail).expect("a well-shaped detail must decode");
    assert_eq!(data.value, "");
    assert_eq!(data.index, -1);
}
