//! Synthetic event dispatch for a retained-mode UI tree.
//!
//! The crate turns buffered raw input notifications (key presses, mouse
//! actions) into typed, target-resolved UI events, matches them against an
//! ordered registry of listener bindings, and schedules the matching
//! listeners in a deterministic order. Geometry questions, such as which
//! rectangle a bound target occupies and how page coordinates relate to
//! viewport and target origins, are answered by a plain-value snapshot of the
//! surrounding tree that the host hands in; the engine never walks a real
//! widget tree itself.

pub mod codes;
pub mod events;
pub mod geometry;
pub mod laws;
pub mod manager;
