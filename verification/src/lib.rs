//! Verified orchestration logic for two small GPU demo programs: a compute
//! dispatch that adds two arrays element by element, and a window that renders
//! a single colored triangle once per redraw request.
//!
//! The GPU and windowing work itself happens through a platform graphics API
//! and an event-loop library; those calls live in the unverified driver under
//! `app/`. This crate holds everything the programs decide: dispatch and
//! execution-group sizing, the command sequences each submission encodes, the
//! per-frame render state, the event-loop state machine, and the scan that
//! checks the compute results.

pub mod commands;
pub mod dispatch;
pub mod events;
pub mod geom;
pub mod render;
pub mod results;
