//! A per-frame orchestrator for an interactive renderer.
//!
//! The crate holds the logic that matters for frame correctness: a simulation
//! store of entities and plain component values, a schedule of update systems
//! compiled once by a builder that rejects write conflicts, and the event-driven
//! state machine that drives the per-frame sequence. The platform window, the
//! GPU backend and the immediate-mode UI toolkit are outside collaborators; a
//! thin shell owns them and feeds this crate plain events, acting on the
//! outcomes it returns.

pub mod application;
pub mod application_builder;
pub mod clock;
pub mod schedule;
pub mod store;
