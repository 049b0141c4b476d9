//! The state and the rules of a fingerprint prompt shown as an overlay at the
//! edge of a display.
//!
//! The prompt is a thin bar that a compositor places along one edge of an
//! output. A fingerprint service tells over the message bus which finger to
//! present and how the verification went; while it waits for a finger the
//! bar is shown, and when the verification is over it is cleared.
//!
//! - [`geometry`]: where the bar sits and how large it asks to be.
//! - [`scale`]: sizes under a fractional display scale.
//! - [`canvas`]: painting a frame into a pixel buffer.
//! - [`bridge`]: decoding the fingerprint service's signals.
//! - [`input`]: keys, pointer events and the seat's devices.
//! - [`state`]: the overlay as a mathematical object, and what each event
//!   makes of it.
//! - [`layer`]: the overlay itself, kept to that model.
//! - [`laws`]: what holds of the overlay whatever happens to it.

pub mod bridge;
pub mod canvas;
pub mod geometry;
pub mod input;
pub mod laws;
pub mod layer;
pub mod scale;
pub mod state;
