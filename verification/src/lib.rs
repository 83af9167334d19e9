//! Hover animation for a clickable button, as a verified state machine.
//!
//! A button owns three visual nodes (a hit-testable control surface, a
//! background image and a label). Pointer events set the direction of a
//! bounded progress value; every frame advances it and, when it moved, says
//! how the background and the label are to be recoloured and shifted.
//!
//! All fractions are exact fixed-point numbers, in millionths (see
//! [`units`]), so the comparison that gates the instructions is exact.

pub mod units;
pub mod node;
pub mod color;
pub mod layout;
pub mod instruction;
pub mod control;
pub mod control_laws;
pub mod composition;

pub mod ui;
pub mod plugin;
pub mod ui_laws;
