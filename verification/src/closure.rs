//! Converts native closures into callable handles for the foreign runtime.
//!
//! The wrapped library takes its predicates and event listeners as
//! JavaScript function values. Each converter here adapts a native closure
//! of a fixed arity — with or without a boolean result — into such a handle
//! and leaks it to the foreign side, so the handle stays callable for the
//! life of the page. The handles are opaque: nothing verified calls through
//! them, so no contract is stated about what the foreign side later invokes.

use vstd::prelude::*;

use wasm_bindgen::JsValue;
use wasm_bindgen::prelude::Closure;

verus! {

/// Relies on `wasm_bindgen::closure::Closure::wrap` and
/// `Closure::into_js_value`: wraps a one-argument listener as a JavaScript
/// function value whose lifetime is handed to the foreign runtime.
#[verifier::external_body]
pub fn to_js_1<F: 'static>(listener: F) -> JsValue where F: FnMut(JsValue) {
    let closure = Closure::wrap(Box::new(listener) as Box<dyn FnMut(JsValue)>);
    closure.into_js_value()
}

/// Relies on `wasm_bindgen::closure::Closure::wrap` and
/// `Closure::into_js_value`: wraps a two-argument listener as a JavaScript
/// function value whose lifetime is handed to the foreign runtime.
#[verifier::external_body]
pub fn to_js_2<F: 'static>(listener: F) -> JsValue where F: FnMut(JsValue, JsValue) {
    let closure = Closure::wrap(Box::new(listener) as Box<dyn FnMut(JsValue, JsValue)>);
    closure.into_js_value()
}

/// Relies on `wasm_bindgen::closure::Closure::wrap` and
/// `Closure::into_js_value`: wraps a three-argument listener as a JavaScript
/// function value whose lifetime is handed to the foreign runtime.
#[verifier::external_body]
pub fn to_js_3<F: 'static>(listener: F) -> JsValue where F: FnMut(JsValue, JsValue, JsValue) {
    let closure = Closure::wrap(Box::new(listener) as Box<dyn FnMut(JsValue, JsValue, JsValue)>);
    closure.into_js_value()
}

/// Relies on `wasm_bindgen::closure::Closure::wrap` and
/// `Closure::into_js_value`: wraps a four-argument listener as a JavaScript
/// function value whose lifetime is handed to the foreign runtime.
#[verifier::external_body]
pub fn to_js_4<F: 'static>(listener: F) -> JsValue where F: FnMut(
    JsValue,
    JsValue,
    JsValue,
    JsValue,
) {
    let closure = Closure::wrap(
        Box::new(listener) as Box<dyn FnMut(JsValue, JsValue, JsValue, JsValue)>,
    );
    closure.into_js_value()
}

/// Relies on `wasm_bindgen::closure::Closure::wrap` and
/// `Closure::into_js_value`: wraps a one-argument predicate as a JavaScript
/// function value whose lifetime is handed to the foreign runtime.
#[verifier::external_body]
pub fn to_js_1_ret<F: 'static>(listener: F) -> JsValue where F: FnMut(JsValue) -> bool {
    let closure = Closure::wrap(Box::new(listener) as Box<dyn FnMut(JsValue) -> bool>);
    closure.into_js_value()
}

/// Relies on `wasm_bindgen::closure::Closure::wrap` and
/// `Closure::into_js_value`: wraps a two-argument predicate as a JavaScript
/// function value whose lifetime is handed to the foreign runtime.
#[verifier::external_body]
pub fn to_js_2_ret<F: 'static>(listener: F) -> JsValue where F: FnMut(JsValue, JsValue) -> bool {
    let closure = Closure::wrap(Box::new(listener) as Box<dyn FnMut(JsValue, JsValue) -> bool>);
    closure.into_js_value()
}

/// Relies on `wasm_bindgen::closure::Closure::wrap` and
/// `Closure::into_js_value`: wraps a four-argument predicate as a JavaScript
/// function value whose lifetime is handed to the foreign runtime.
#[verifier::external_body]
pub fn to_js_4_ret<F: 'static>(listener: F) -> JsValue where F: FnMut(
    JsValue,
    JsValue,
    JsValue,
    JsValue,
) -> bool {
    let closure = Closure::wrap(
        Box::new(listener) as Box<dyn FnMut(JsValue, JsValue, JsValue, JsValue) -> bool>,
    );
    closure.into_js_value()
}

} // verus!
