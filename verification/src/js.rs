//! Declarations and thin trusted shims for the foreign runtime's value type.
//!
//! A `JsValue` is a handle to a value owned by the JavaScript runtime. The
//! handle is opaque on this side of the boundary: nothing verified reads
//! through it, so contracts treat a handle as standing for the foreign value
//! it references.

use vstd::prelude::*;

verus! {

#[verifier::external_type_specification]
#[verifier::external_body]
pub struct ExJsValue(wasm_bindgen::JsValue);

/// Relies on `wasm_bindgen::JsValue::UNDEFINED`: the constant handle for the
/// JavaScript `undefined` value.
#[verifier::external_body]
pub(crate) fn js_undefined() -> wasm_bindgen::JsValue {
    wasm_bindgen::JsValue::UNDEFINED
}

/// Relies on `wasm_bindgen::JsValue::from_bool`: returns the handle for the
/// JavaScript `true` or `false` value.
#[verifier::external_body]
pub(crate) fn js_from_bool(b: bool) -> wasm_bindgen::JsValue {
    wasm_bindgen::JsValue::from_bool(b)
}

/// Relies on `wasm_bindgen::JsValue::clone`: the clone is a fresh handle to
/// the same JavaScript value, so it stands for the same foreign value as the
/// original.
#[verifier::external_body]
pub(crate) fn js_clone(v: &wasm_bindgen::JsValue) -> (r: wasm_bindgen::JsValue)
    ensures
        r == *v,
{
    v.clone()
}

} // verus!
