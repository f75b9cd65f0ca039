//! A safe, verified access layer over the opaque, reference-counted model
//! handles of an external SMT engine.
//!
//! The engine owns every symbolic object and hands this layer raw handles.
//! All raw engine calls live outside this crate; the crate receives each
//! engine reply as a plain value and makes every decision the layer owes:
//! which replies mean "no model", how constant lookups are bounded and
//! type-checked, how symbols are encoded and decoded, and which
//! reference-count operations the caller must perform on the engine so that
//! every wrapper holds exactly one reference.

pub mod handles;
pub mod model;
pub mod render;
pub mod symbol;
