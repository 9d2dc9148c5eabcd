//! The named events a controller re-exposes as typed callback
//! registrations.
//!
//! The wrapped library fires nine events, each identified by a name string
//! and each passing its listener a fixed number of element arguments. Both
//! facts are pinned here, so a registration call can pick the event name and
//! the matching closure converter without a stray string or arity anywhere
//! else.

use vstd::prelude::*;

verus! {

/// One of the nine events a controller fires.
pub enum DragEvent {
    /// `el` was lifted from `source`; listener args `(el, source)`.
    Drag,
    /// Dragging of `el` ended in a cancel, a removal or a drop; listener
    /// arg `(el)`.
    DragEnd,
    /// `el`, from `source`, was dropped into `target` before `sibling`;
    /// listener args `(el, target, source, sibling)`.
    Drop,
    /// `el` went nowhere and returned to `container`, its last stable
    /// parent, having come from `source`; listener args
    /// `(el, container, source)`.
    Cancel,
    /// `el` went nowhere and was removed from the document; listener args
    /// `(el, container, source)`.
    Remove,
    /// The feedback shadow `el` moved into `container`; fires on every
    /// position change; listener args `(el, container, source)`.
    Shadow,
    /// `el` is over `container`; listener args `(el, container, source)`.
    Over,
    /// `el` left `container` or was dropped; listener args
    /// `(el, container, source)`.
    Out,
    /// `original` was cloned as `clone`, for the mirror or for a copy;
    /// listener args `(clone, original, type)`.
    Cloned,
}

/// The name string under which the wrapped library fires the event.
pub open spec fn event_name_view(e: DragEvent) -> Seq<char> {
    match e {
        DragEvent::Drag => "drag"@,
        DragEvent::DragEnd => "dragend"@,
        DragEvent::Drop => "drop"@,
        DragEvent::Cancel => "cancel"@,
        DragEvent::Remove => "remove"@,
        DragEvent::Shadow => "shadow"@,
        DragEvent::Over => "over"@,
        DragEvent::Out => "out"@,
        DragEvent::Cloned => "cloned"@,
    }
}

/// How many arguments the wrapped library passes a listener for the event.
pub open spec fn event_arity(e: DragEvent) -> int {
    match e {
        DragEvent::Drag => 2,
        DragEvent::DragEnd => 1,
        DragEvent::Drop => 4,
        DragEvent::Cancel => 3,
        DragEvent::Remove => 3,
        DragEvent::Shadow => 3,
        DragEvent::Over => 3,
        DragEvent::Out => 3,
        DragEvent::Cloned => 3,
    }
}

impl DragEvent {
    /// The event's name as the wrapped library spells it.
    pub fn name(&self) -> (r: String)
        ensures
            r@ == event_name_view(*self),
    {
        match self {
            DragEvent::Drag => "drag".to_owned(),
            DragEvent::DragEnd => "dragend".to_owned(),
            DragEvent::Drop => "drop".to_owned(),
            DragEvent::Cancel => "cancel".to_owned(),
            DragEvent::Remove => "remove".to_owned(),
            DragEvent::Shadow => "shadow".to_owned(),
            DragEvent::Over => "over".to_owned(),
            DragEvent::Out => "out".to_owned(),
            DragEvent::Cloned => "cloned".to_owned(),
        }
    }

    /// The number of arguments a listener for the event receives, between
    /// one and four; it selects the matching converter in
    /// [`crate::closure`].
    pub fn listener_arity(&self) -> (r: u32)
        ensures
            r == event_arity(*self),
            1 <= r <= 4,
    {
        match self {
            DragEvent::Drag => 2,
            DragEvent::DragEnd => 1,
            DragEvent::Drop => 4,
            DragEvent::Cancel => 3,
            DragEvent::Remove => 3,
            DragEvent::Shadow => 3,
            DragEvent::Over => 3,
            DragEvent::Out => 3,
            DragEvent::Cloned => 3,
        }
    }
}

} // verus!
