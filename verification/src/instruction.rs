//! What the stepper asks of its collaborators: colour changes, layout
//! changes and pointer-icon requests.

use vstd::prelude::*;
use crate::color::Rgba;
use crate::layout::UiLayout;
use crate::node::NodeId;
use crate::units::UNIT;

verus! {

/// Asks that `target` be drawn in `color`.
#[derive(Clone, Copy, Debug, PartialEq, Eq, Structural)]
pub struct SetColor {
    pub target: NodeId,
    pub color: Rgba,
}

/// Asks that `target` be laid out by `layout`.
#[derive(Clone, Copy, Debug, PartialEq, Eq, Structural)]
pub struct SetUiLayout {
    pub target: NodeId,
    pub layout: UiLayout,
}

/// Pointer icons a widget can ask for.
#[derive(Clone, Copy, Debug, PartialEq, Eq, Structural)]
pub enum CursorIcon {
    Default,
    Pointer,
    Copy,
}

/// Asks for a pointer icon during the current tick. Whoever arbitrates
/// between concurrent requests goes by `priority`, a fraction in millionths.
#[derive(Clone, Copy, Debug, PartialEq, Eq, Structural)]
pub struct CursorRequest {
    pub icon: CursorIcon,
    pub priority: u32,
}

/// The request a hovered button makes on every tick.
pub open spec fn hover_cursor() -> CursorRequest {
    CursorRequest { icon: CursorIcon::Copy, priority: UNIT }
}

} // verus!
