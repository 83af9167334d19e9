//! Declarative layout descriptors. The layout engine that resolves them into
//! screen rectangles is not part of this crate.

use vstd::prelude::*;

verus! {

/// The point of a node that its position refers to.
#[derive(Clone, Copy, Debug, PartialEq, Eq, Structural)]
pub enum Anchor {
    TopLeft,
    CenterLeft,
}

/// A window layout: a position inside the parent, relative to the parent's
/// size, and either the parent's full size or the node's own.
///
/// Positions are percentages of the parent in millionths: `5_000_000` is
/// five percent.
#[derive(Clone, Copy, Debug, PartialEq, Eq, Structural)]
pub struct UiLayout {
    /// Horizontal offset, relative.
    pub x: u32,
    /// Vertical offset, relative.
    pub y: u32,
    /// Whether the node takes the whole size of its parent.
    pub full: bool,
    /// The anchor.
    pub anchor: Anchor,
}

impl UiLayout {
    /// A window over the whole parent.
    pub open spec fn window_full_spec() -> UiLayout {
        UiLayout { x: 0, y: 0, full: true, anchor: Anchor::TopLeft }
    }

    /// A window of the node's own size at the parent's origin.
    pub open spec fn window_spec() -> UiLayout {
        UiLayout { x: 0, y: 0, full: false, anchor: Anchor::TopLeft }
    }

    /// A window over the whole parent.
    pub fn window_full() -> (l: UiLayout)
        ensures
            l == Self::window_full_spec(),
    {
        UiLayout { x: 0, y: 0, full: true, anchor: Anchor::TopLeft }
    }

    /// A window of the node's own size at the parent's origin.
    pub fn window() -> (l: UiLayout)
        ensures
            l == Self::window_spec(),
    {
        UiLayout { x: 0, y: 0, full: false, anchor: Anchor::TopLeft }
    }

    /// This layout moved horizontally to `x`.
    pub fn x(self, x: u32) -> (l: UiLayout)
        ensures
            l == (UiLayout { x, ..self }),
    {
        UiLayout { x, y: self.y, full: self.full, anchor: self.anchor }
    }

    /// This layout moved to `(x, y)`.
    pub fn pos(self, x: u32, y: u32) -> (l: UiLayout)
        ensures
            l == (UiLayout { x, y, ..self }),
    {
        UiLayout { x, y, full: self.full, anchor: self.anchor }
    }

    /// This layout with another anchor.
    pub fn anchor(self, anchor: Anchor) -> (l: UiLayout)
        ensures
            l == (UiLayout { anchor, ..self }),
    {
        UiLayout { x: self.x, y: self.y, full: self.full, anchor }
    }
}

} // verus!
