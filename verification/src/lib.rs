//! A dropdown control as a state machine.
//!
//! The control is made of a button, which shows the current selection and
//! opens or closes a panel, and the panel, a column of selectable options
//! that hangs below the button. This crate holds every decision the control
//! takes: where an event goes and in which coordinates, when the panel
//! closes, which constraints the two parts are measured under, and where the
//! panel is painted. Drawing, text measurement and the event loop belong to
//! the host: it asks the control what to do, does it, and reports back.

pub mod constraints;
pub mod dropdown;
pub mod event;
pub mod geometry;
pub mod laws;
pub mod model;
pub mod plan;
pub mod selection;
