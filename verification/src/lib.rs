//! A verified build pipeline for user-submitted components.
//!
//! The library models one build as a state machine: each step consumes the
//! outcome of the previous external action (a filesystem operation, an
//! external tool run, an upload) and decides the next action.  The driver
//! that actually performs the actions lives outside the library; everything
//! that decides, formats or names is verified here.

pub mod media;
pub mod text;
pub mod request;
pub mod machine;
pub mod laws;
