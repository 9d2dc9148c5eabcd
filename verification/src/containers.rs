//! The container list of a live controller, in host-side form.
//!
//! A controller keeps its containers as a JavaScript array. On this side the
//! list is a `Vec` of handles: reading converts the foreign array once, and
//! growing the list is an ordinary, verified push whose result is written
//! back whole.

use vstd::prelude::*;

use wasm_bindgen::JsValue;

verus! {

/// Relies on `js_sys::Array::from` and `js_sys::Array::to_vec`: reads the
/// JavaScript array the handle references and hands its elements out as a
/// vector of handles. The foreign array is live, mutable state, so nothing
/// relates two reads of the same handle.
#[verifier::external_body]
pub fn container_handles(list: &JsValue) -> Vec<JsValue> {
    js_sys::Array::from(list).to_vec()
}

/// Appends one container handle to a host-side container list: the new list
/// is exactly the old one with `container` at the end.
pub fn push_container(containers: &mut Vec<JsValue>, container: JsValue)
    ensures
        final(containers)@ == old(containers)@.push(container),
{
    containers.push(container);
}

} // verus!
