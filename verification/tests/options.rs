use dragula::options::CopyValue;
use dragula::options::Direction;
use dragula::options::Options;
use dragula::options::OptionsImpl;
use wasm_bindgen::JsValue;

#[test]
fn direction_strings() {
    assert_eq!(Direction::Vertical.to_string(), "vertical");
    assert_eq!(Direction::Horizontal.to_string(), "horizontal");
}

#[test]
fn options_default_values() {
    let options = Options::default();
    assert!(options.is_container.is_none());
    assert!(options.moves.is_none());
    assert!(options.accepts.is_none());
    assert!(options.invalid.is_none());
    assert!(matches!(options.copy, CopyValue::Bool(false)));
    assert!(!options.copy_sort_source);
    assert!(!options.revert_on_spill);
    assert!(!options.remove_on_spill);
    assert!(matches!(options.direction, Direction::Vertical));
    assert!(options.mirror_container.is_none());
    assert!(options.ignore_input_text_selection);
    assert_eq!(options.slide_factor_x, 0);
    assert_eq!(options.slide_factor_y, 0);
}

#[test]
fn lowering_copies_plain_fields() {
    let options = Options {
        copy_sort_source: true,
        revert_on_spill: true,
        remove_on_spill: true,
        ignore_input_text_selection: false,
        slide_factor_x: 10,
        slide_factor_y: -3,
        direction: Direction::Horizontal,
        ..Options::default()
    };
    let lowered = OptionsImpl::from(options);
    assert!(lowered.copy_sort_source);
    assert!(lowered.revert_on_spill);
    assert!(lowered.remove_on_spill);
    assert!(!lowered.ignore_input_text_selection);
    assert_eq!(lowered.slide_factor_x, 10);
    assert_eq!(lowered.slide_factor_y, -3);
    assert_eq!(lowered.direction, "horizontal");
}

#[test]
fn lowering_defaults_keeps_documented_values() {
    let lowered = OptionsImpl::default();
    assert!(!lowered.copy_sort_source);
    assert!(!lowered.revert_on_spill);
    assert!(!lowered.remove_on_spill);
    assert!(lowered.ignore_input_text_selection);
    assert_eq!(lowered.slide_factor_x, 0);
    assert_eq!(lowered.slide_factor_y, 0);
    assert_eq!(lowered.direction, "vertical");
}

#[test]
fn lowering_accepts_set_handles() {
    // The reserved constant handles can be built and dropped without a live
    // JavaScript runtime, so the lowering path itself is exercised here.
    let options = Options {
        is_container: Some(JsValue::UNDEFINED),
        moves: Some(JsValue::NULL),
        accepts: Some(JsValue::TRUE),
        invalid: Some(JsValue::FALSE),
        copy: CopyValue::Func(JsValue::NULL),
        mirror_container: Some(JsValue::UNDEFINED),
        ..Options::default()
    };
    let lowered = OptionsImpl::from(options);
    assert_eq!(lowered.direction, "vertical");
}

#[test]
fn copy_value_bool_lowers_without_a_runtime() {
    let as_js = CopyValue::Bool(true).to_js();
    drop(as_js);
    let as_js = CopyValue::Bool(false).to_js();
    drop(as_js);
}

#[test]
fn set_direction_replaces_the_string() {
    let mut lowered = OptionsImpl::default();
    lowered.set_direction(String::from("horizontal"));
    assert_eq!(lowered.direction(), "horizontal");
    assert_eq!(lowered.direction, "horizontal");
}

#[test]
fn setters_keep_other_fields() {
    let mut lowered = OptionsImpl::from(Options {
        slide_factor_x: 7,
        ..Options::default()
    });
    lowered.set_is_container_func(JsValue::NULL);
    lowered.set_moves_func(JsValue::NULL);
    lowered.set_accepts_func(JsValue::NULL);
    lowered.set_invalid_func(JsValue::NULL);
    lowered.set_copy_func_or_bool(JsValue::TRUE);
    lowered.set_mirror_container_elem(JsValue::UNDEFINED);
    assert_eq!(lowered.slide_factor_x, 7);
    assert_eq!(lowered.direction, "vertical");
}
