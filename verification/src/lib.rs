//! Typed bindings for a browser drag-and-drop engine.
//!
//! The heavy lifting — pointer tracking, shadow placement, spill handling —
//! is done by the wrapped JavaScript library. This crate's job is the
//! boundary: turning native closures into callable handles, mapping an
//! option record field by field onto the foreign option object, and keeping
//! the container lists in a host-side form. Those conversions are what is
//! specified and verified here.

pub mod closure;
pub mod containers;
pub mod events;
mod js;
pub mod options;

pub use options::Options;
