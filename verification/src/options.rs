//! The option record handed to the drag-and-drop engine at start-up.
//!
//! [`Options`] is the typed form a caller fills in; [`OptionsImpl`] is the
//! lowered form whose fields line up one for one with the option names the
//! wrapped library documents. Lowering is a field-by-field mapping and is
//! verified exactly: every flag, factor, predicate handle and the direction
//! string of the lowered record are pinned to the source record.

use vstd::prelude::*;

use crate::js::js_clone;
use crate::js::js_from_bool;
use crate::js::js_undefined;

verus! {

/// The axis considered when deciding where a dropped element lands.
///
/// When an element is dropped onto a container it is placed near the point
/// where the pointer was released. With `Vertical`, the default, the Y axis
/// decides the slot; with `Horizontal`, the X axis.
pub enum Direction {
    Vertical,
    Horizontal,
}

/// The option string the wrapped library expects for a [`Direction`].
pub open spec fn direction_view(d: Direction) -> Seq<char> {
    match d {
        Direction::Vertical => "vertical"@,
        Direction::Horizontal => "horizontal"@,
    }
}

impl Direction {
    /// The name of the axis as the wrapped library spells it in its option
    /// object: `"vertical"` or `"horizontal"`.
    pub fn to_string(&self) -> (r: String)
        ensures
            r@ == direction_view(*self),
    {
        match self {
            Direction::Vertical => "vertical".to_owned(),
            Direction::Horizontal => "horizontal".to_owned(),
        }
    }
}

/// The `copy` option takes either a flag or a predicate, so this union
/// carries one of the two.
///
/// A predicate is passed as a callable handle made with
/// [`crate::closure::to_js_2_ret`]; the wrapped library invokes it with
/// `(el, handle)`, the element to check and the element that was clicked.
pub enum CopyValue {
    Bool(bool),
    Func(wasm_bindgen::JsValue),
}

impl CopyValue {
    /// Lowers the union to the single foreign value the option object holds:
    /// a predicate handle is passed through unchanged, a flag becomes the
    /// matching JavaScript boolean.
    pub fn to_js(self) -> (r: wasm_bindgen::JsValue)
        ensures
            self is Func ==> r == self->Func_0,
    {
        match self {
            CopyValue::Bool(copy) => js_from_bool(copy),
            CopyValue::Func(copy) => copy,
        }
    }
}

/// Options controlling the drag-and-drop behaviour of one controller.
///
/// Pass the record to the activation call to tune the engine. Each predicate
/// field holds a callable handle made with the matching converter in
/// [`crate::closure`]; `None` leaves the wrapped library's documented default
/// in force, which is the same behaviour the defaults below describe.
pub struct Options {
    /// Decides whether an element counts as a container for this controller,
    /// beyond the containers passed at activation. Invoked with the element
    /// being checked; made with [`crate::closure::to_js_1_ret`].
    ///
    /// Unset by default: no extra element is a container.
    pub is_container: Option<wasm_bindgen::JsValue>,
    /// Invoked with `(el, source, handle, sibling)` whenever an element is
    /// clicked; returning `false` keeps the drag from starting. `handle` is
    /// the original click target, useful to test for a drag handle. Made
    /// with [`crate::closure::to_js_4_ret`].
    ///
    /// Unset by default: every element may be dragged.
    pub moves: Option<wasm_bindgen::JsValue>,
    /// Invoked with `(el, target, source, sibling)` to decide whether `el`,
    /// which came from `source`, may be dropped on `target` before
    /// `sibling`. A null `sibling` means the element would land last in the
    /// container. Made with [`crate::closure::to_js_4_ret`].
    ///
    /// Unset by default: every container accepts every element.
    pub accepts: Option<wasm_bindgen::JsValue>,
    /// Invoked with `(el, handle)`; returning `true` marks elements that
    /// should never trigger a drag. Made with
    /// [`crate::closure::to_js_2_ret`].
    ///
    /// Unset by default: no element is invalid.
    pub invalid: Option<wasm_bindgen::JsValue>,
    /// Whether items are copied rather than moved, either as a flag or as a
    /// predicate consulted when a drag starts.
    ///
    /// `false` by default.
    pub copy: CopyValue,
    /// Whether elements in copy-source containers can be reordered while
    /// copying is in force.
    ///
    /// `false` by default.
    pub copy_sort_source: bool,
    /// Whether an element spilled outside every container goes back to where
    /// the drag began rather than to the spot previewed by the shadow.
    ///
    /// `false` by default.
    pub revert_on_spill: bool,
    /// Whether an element spilled outside every container is removed from
    /// the document. Removal never fires while copying is in force.
    ///
    /// `false` by default.
    pub remove_on_spill: bool,
    /// The axis considered when choosing the slot a dropped element lands
    /// in.
    ///
    /// [`Direction::Vertical`] by default.
    pub direction: Direction,
    /// The element the drag mirror is appended to while dragging.
    ///
    /// Unset by default: the wrapped library appends to the document body.
    pub mirror_container: Option<wasm_bindgen::JsValue>,
    /// Whether a click on a text input starts the drag only once the
    /// pointer leaves the input, so text selection keeps working.
    ///
    /// `true` by default.
    pub ignore_input_text_selection: bool,
    /// Horizontal movement, in pixels, for a click to count as a drag.
    ///
    /// `0` by default.
    pub slide_factor_x: i32,
    /// Vertical movement, in pixels, for a click to count as a drag.
    ///
    /// `0` by default.
    pub slide_factor_y: i32,
}

impl Default for Options {
    /// The defaults the wrapped library documents: nothing extra is a
    /// container, everything may move, everything is accepted, nothing is
    /// invalid, items move rather than copy, spills fall to the shadow
    /// position, the vertical axis decides drops, the mirror goes to the
    /// document body, text selection is respected, and any movement counts
    /// as a drag.
    fn default() -> (r: Self)
        ensures
            r.is_container is None,
            r.moves is None,
            r.accepts is None,
            r.invalid is None,
            r.copy == CopyValue::Bool(false),
            !r.copy_sort_source,
            !r.revert_on_spill,
            !r.remove_on_spill,
            r.direction is Vertical,
            r.mirror_container is None,
            r.ignore_input_text_selection,
            r.slide_factor_x == 0,
            r.slide_factor_y == 0,
    {
        Self {
            is_container: None,
            moves: None,
            accepts: None,
            invalid: None,
            copy: CopyValue::Bool(false),
            copy_sort_source: false,
            revert_on_spill: false,
            remove_on_spill: false,
            direction: Direction::Vertical,
            mirror_container: None,
            ignore_input_text_selection: true,
            slide_factor_x: 0,
            slide_factor_y: 0,
        }
    }
}

/// The lowered option record: one field per option name the wrapped library
/// documents, each already in the form the foreign side reads. An unset
/// predicate or mirror container is lowered to the `undefined` handle, which
/// the wrapped library treats as "use my default".
pub struct OptionsImpl {
    pub is_container_func: wasm_bindgen::JsValue,
    pub moves_func: wasm_bindgen::JsValue,
    pub accepts_func: wasm_bindgen::JsValue,
    pub invalid_func: wasm_bindgen::JsValue,
    pub copy_func_or_bool: wasm_bindgen::JsValue,
    pub copy_sort_source: bool,
    pub revert_on_spill: bool,
    pub remove_on_spill: bool,
    pub direction: String,
    pub mirror_container_elem: wasm_bindgen::JsValue,
    pub ignore_input_text_selection: bool,
    pub slide_factor_x: i32,
    pub slide_factor_y: i32,
}

impl OptionsImpl {
    /// Lowers a typed [`Options`] record field by field: flags and slide
    /// factors are copied, the direction becomes its option string, each set
    /// predicate handle is passed through unchanged, and the copy union
    /// collapses to one foreign value.
    pub fn from(options: Options) -> (r: OptionsImpl)
        ensures
            options.is_container is Some ==> r.is_container_func == options.is_container->0,
            options.moves is Some ==> r.moves_func == options.moves->0,
            options.accepts is Some ==> r.accepts_func == options.accepts->0,
            options.invalid is Some ==> r.invalid_func == options.invalid->0,
            options.copy is Func ==> r.copy_func_or_bool == options.copy->Func_0,
            options.mirror_container is Some ==> (r.mirror_container_elem
                == options.mirror_container->0),
            r.copy_sort_source == options.copy_sort_source,
            r.revert_on_spill == options.revert_on_spill,
            r.remove_on_spill == options.remove_on_spill,
            r.direction@ == direction_view(options.direction),
            r.ignore_input_text_selection == options.ignore_input_text_selection,
            r.slide_factor_x == options.slide_factor_x,
            r.slide_factor_y == options.slide_factor_y,
    {
        OptionsImpl {
            is_container_func: unset_to_undefined(options.is_container),
            moves_func: unset_to_undefined(options.moves),
            accepts_func: unset_to_undefined(options.accepts),
            invalid_func: unset_to_undefined(options.invalid),
            copy_func_or_bool: options.copy.to_js(),
            mirror_container_elem: unset_to_undefined(options.mirror_container),
            copy_sort_source: options.copy_sort_source,
            revert_on_spill: options.revert_on_spill,
            remove_on_spill: options.remove_on_spill,
            direction: options.direction.to_string(),
            ignore_input_text_selection: options.ignore_input_text_selection,
            slide_factor_x: options.slide_factor_x,
            slide_factor_y: options.slide_factor_y,
        }
    }
}

impl OptionsImpl {
    /// The handle stored in the `isContainer` slot.
    pub fn is_container_func(&self) -> (r: wasm_bindgen::JsValue)
        ensures
            r == self.is_container_func,
    {
        js_clone(&self.is_container_func)
    }

    /// Replaces the handle in the `isContainer` slot.
    pub fn set_is_container_func(&mut self, val: wasm_bindgen::JsValue)
        ensures
            *final(self) == (OptionsImpl { is_container_func: val, ..*old(self) }),
    {
        self.is_container_func = val;
    }

    /// The handle stored in the `moves` slot.
    pub fn moves_func(&self) -> (r: wasm_bindgen::JsValue)
        ensures
            r == self.moves_func,
    {
        js_clone(&self.moves_func)
    }

    /// Replaces the handle in the `moves` slot.
    pub fn set_moves_func(&mut self, val: wasm_bindgen::JsValue)
        ensures
            *final(self) == (OptionsImpl { moves_func: val, ..*old(self) }),
    {
        self.moves_func = val;
    }

    /// The handle stored in the `accepts` slot.
    pub fn accepts_func(&self) -> (r: wasm_bindgen::JsValue)
        ensures
            r == self.accepts_func,
    {
        js_clone(&self.accepts_func)
    }

    /// Replaces the handle in the `accepts` slot.
    pub fn set_accepts_func(&mut self, val: wasm_bindgen::JsValue)
        ensures
            *final(self) == (OptionsImpl { accepts_func: val, ..*old(self) }),
    {
        self.accepts_func = val;
    }

    /// The handle stored in the `invalid` slot.
    pub fn invalid_func(&self) -> (r: wasm_bindgen::JsValue)
        ensures
            r == self.invalid_func,
    {
        js_clone(&self.invalid_func)
    }

    /// Replaces the handle in the `invalid` slot.
    pub fn set_invalid_func(&mut self, val: wasm_bindgen::JsValue)
        ensures
            *final(self) == (OptionsImpl { invalid_func: val, ..*old(self) }),
    {
        self.invalid_func = val;
    }

    /// The value stored in the `copy` slot: a boolean or a predicate handle.
    pub fn copy_func_or_bool(&self) -> (r: wasm_bindgen::JsValue)
        ensures
            r == self.copy_func_or_bool,
    {
        js_clone(&self.copy_func_or_bool)
    }

    /// Replaces the value in the `copy` slot.
    pub fn set_copy_func_or_bool(&mut self, val: wasm_bindgen::JsValue)
        ensures
            *final(self) == (OptionsImpl { copy_func_or_bool: val, ..*old(self) }),
    {
        self.copy_func_or_bool = val;
    }

    /// The element handle stored in the `mirrorContainer` slot.
    pub fn mirror_container_elem(&self) -> (r: wasm_bindgen::JsValue)
        ensures
            r == self.mirror_container_elem,
    {
        js_clone(&self.mirror_container_elem)
    }

    /// Replaces the element handle in the `mirrorContainer` slot.
    pub fn set_mirror_container_elem(&mut self, val: wasm_bindgen::JsValue)
        ensures
            *final(self) == (OptionsImpl { mirror_container_elem: val, ..*old(self) }),
    {
        self.mirror_container_elem = val;
    }

    /// The axis string stored in the `direction` slot.
    pub fn direction(&self) -> (r: String)
        ensures
            r == self.direction,
    {
        self.direction.clone()
    }

    /// Replaces the axis string in the `direction` slot.
    pub fn set_direction(&mut self, val: String)
        ensures
            *final(self) == (OptionsImpl { direction: val, ..*old(self) }),
    {
        self.direction = val;
    }
}

impl Default for OptionsImpl {
    /// The lowered form of [`Options::default`]: every predicate slot and
    /// the mirror slot lowered to `undefined`, all flags and factors at the
    /// documented defaults, the direction string `"vertical"`.
    fn default() -> (r: Self)
        ensures
            !r.copy_sort_source,
            !r.revert_on_spill,
            !r.remove_on_spill,
            r.direction@ == direction_view(Direction::Vertical),
            r.ignore_input_text_selection,
            r.slide_factor_x == 0,
            r.slide_factor_y == 0,
    {
        OptionsImpl::from(Options::default())
    }
}

/// An unset option slot is handed to the foreign side as `undefined`, which
/// the wrapped library replaces with its own documented default.
fn unset_to_undefined(slot: Option<wasm_bindgen::JsValue>) -> (r: wasm_bindgen::JsValue)
    ensures
        slot is Some ==> r == slot->0,
{
    match slot {
        Some(v) => v,
        None => js_undefined(),
    }
}

} // verus!
