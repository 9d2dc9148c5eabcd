use dragula::containers::push_container;
use dragula::events::DragEvent;
use wasm_bindgen::JsValue;

#[test]
fn event_names() {
    assert_eq!(DragEvent::Drag.name(), "drag");
    assert_eq!(DragEvent::DragEnd.name(), "dragend");
    assert_eq!(DragEvent::Drop.name(), "drop");
    assert_eq!(DragEvent::Cancel.name(), "cancel");
    assert_eq!(DragEvent::Remove.name(), "remove");
    assert_eq!(DragEvent::Shadow.name(), "shadow");
    assert_eq!(DragEvent::Over.name(), "over");
    assert_eq!(DragEvent::Out.name(), "out");
    assert_eq!(DragEvent::Cloned.name(), "cloned");
}

#[test]
fn event_arities() {
    assert_eq!(DragEvent::Drag.listener_arity(), 2);
    assert_eq!(DragEvent::DragEnd.listener_arity(), 1);
    assert_eq!(DragEvent::Drop.listener_arity(), 4);
    assert_eq!(DragEvent::Cancel.listener_arity(), 3);
    assert_eq!(DragEvent::Remove.listener_arity(), 3);
    assert_eq!(DragEvent::Shadow.listener_arity(), 3);
    assert_eq!(DragEvent::Over.listener_arity(), 3);
    assert_eq!(DragEvent::Out.listener_arity(), 3);
    assert_eq!(DragEvent::Cloned.listener_arity(), 3);
}

#[test]
fn push_container_grows_the_list() {
    let mut containers: Vec<JsValue> = Vec::new();
    push_container(&mut containers, JsValue::UNDEFINED);
    assert_eq!(containers.len(), 1);
    push_container(&mut containers, JsValue::NULL);
    push_container(&mut containers, JsValue::TRUE);
    assert_eq!(containers.len(), 3);
}

#[test]
fn push_container_starts_from_an_existing_list() {
    let mut containers: Vec<JsValue> = vec![JsValue::NULL, JsValue::FALSE];
    push_container(&mut containers, JsValue::UNDEFINED);
    assert_eq!(containers.len(), 3);
}
