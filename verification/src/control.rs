//! The state of one button and the three things that change it: the pointer
//! entering, the pointer leaving, and time passing.

use vstd::prelude::*;
use crate::color::Palette;
use crate::instruction::{hover_cursor, CursorIcon, CursorRequest, SetColor, SetUiLayout};
use crate::layout::UiLayout;
use crate::node::NodeId;
use crate::units::{advance_backward, advance_forward, advance_spec, UNIT};

verus! {

/// Which way a button's transition is moving.
#[derive(Clone, Copy, Debug, PartialEq, Eq, Structural)]
pub enum Direction {
    /// Back towards rest: the pointer has left.
    Backward,
    /// Not moving: the pointer has never been over the button.
    Idle,
    /// Towards the hovered look: the pointer is over the button.
    Forward,
}

impl Direction {
    /// The factor by which elapsed time moves the progress: -1, 0 or 1.
    pub open spec fn sign(self) -> int {
        match self {
            Direction::Backward => -1,
            Direction::Idle => 0,
            Direction::Forward => 1,
        }
    }
}

/// How far the background is shifted to the right when fully hovered, in
/// relative layout units.
pub const SHIFT: u32 = 10;

/// What the collaborators are told when a button's progress has moved.
#[derive(Clone, Copy, Debug, PartialEq, Eq, Structural)]
pub struct Repaint {
    /// The background's new colour.
    pub image_color: SetColor,
    /// The label's new colour.
    pub text_color: SetColor,
    /// The background's new layout.
    pub image_layout: SetUiLayout,
}

/// What one button hands out in one tick.
#[derive(Clone, Copy, Debug, PartialEq, Eq, Structural)]
pub struct StepOutput {
    /// The instructions for the two owned nodes, if the progress moved.
    pub repaint: Option<Repaint>,
    /// The pointer-icon request, made while the button is hovered.
    pub cursor: Option<CursorRequest>,
}

/// Something that happens to a button.
pub enum ControlInput {
    PointerEnter,
    PointerLeave,
    Tick { elapsed_micros: nat },
}

/// The mathematical state of one button.
pub struct ControlState {
    /// Which way the transition is moving.
    pub direction: Direction,
    /// How far the transition has come, in millionths.
    pub progress: nat,
    /// The background node that the button instructs.
    pub image: NodeId,
    /// The label node that the button instructs.
    pub text: NodeId,
}

impl ControlState {
    /// The state of a button that was just built.
    pub open spec fn fresh(image: NodeId, text: NodeId) -> ControlState {
        ControlState { direction: Direction::Idle, progress: 0, image, text }
    }

    /// The progress is a fraction: it never exceeds one.
    pub open spec fn wf(self) -> bool {
        self.progress <= UNIT
    }

    /// The state with its direction replaced and nothing else touched.
    pub open spec fn turned(self, direction: Direction) -> ControlState {
        ControlState { direction, ..self }
    }

    /// The state after the pointer has entered.
    pub open spec fn entered(self) -> ControlState {
        self.turned(Direction::Forward)
    }

    /// The state after the pointer has left.
    pub open spec fn left(self) -> ControlState {
        self.turned(Direction::Backward)
    }

    /// The state after `elapsed_micros` microseconds have passed.
    pub open spec fn advanced(self, elapsed_micros: nat) -> ControlState {
        ControlState {
            progress: advance_spec(
                self.progress as int,
                self.direction.sign(),
                elapsed_micros as int,
            ) as nat,
            ..self
        }
    }

    /// The instructions that describe the look at the current progress: the
    /// blend of the palette, with the progress as its opacity on the
    /// background and opaque on the label, and the background shifted in
    /// proportion to the progress.
    pub open spec fn repaint(self, palette: Palette) -> Repaint {
        let blend = palette.blend_spec(self.progress as int);
        Repaint {
            image_color: SetColor {
                target: self.image,
                color: blend.with_a_spec(self.progress as u32),
            },
            text_color: SetColor { target: self.text, color: blend.with_a_spec(UNIT) },
            image_layout: SetUiLayout {
                target: self.image,
                layout: UiLayout {
                    x: (SHIFT * self.progress) as u32,
                    ..UiLayout::window_full_spec()
                },
            },
        }
    }

    /// What a tick of `elapsed_micros` hands out: the new look if and only if
    /// the progress moves, and the pointer-icon request if and only if the
    /// direction is forward.
    pub open spec fn output(self, elapsed_micros: nat, palette: Palette) -> StepOutput {
        let next = self.advanced(elapsed_micros);
        StepOutput {
            repaint: if next.progress != self.progress {
                Some(next.repaint(palette))
            } else {
                None
            },
            cursor: if self.direction == Direction::Forward {
                Some(hover_cursor())
            } else {
                None
            },
        }
    }

    /// The state after one input.
    pub open spec fn apply(self, input: ControlInput) -> ControlState {
        match input {
            ControlInput::PointerEnter => self.entered(),
            ControlInput::PointerLeave => self.left(),
            ControlInput::Tick { elapsed_micros } => self.advanced(elapsed_micros),
        }
    }

    /// The state after a sequence of inputs, first to last.
    pub open spec fn run(self, inputs: Seq<ControlInput>) -> ControlState
        decreases inputs.len(),
    {
        if inputs.len() == 0 {
            self
        } else {
            self.run(inputs.drop_last()).apply(inputs.last())
        }
    }

    /// The state after `n` ticks of `elapsed_micros` each.
    pub open spec fn ticked(self, elapsed_micros: nat, n: nat) -> ControlState
        decreases n,
    {
        if n == 0 {
            self
        } else {
            self.ticked(elapsed_micros, (n - 1) as nat).advanced(elapsed_micros)
        }
    }
}

/// The state record of one button. It lives with the button's control node.
#[derive(Clone, Copy, Debug, PartialEq, Eq)]
pub struct MainButtonControl {
    animation_direction: Direction,
    animation_transition: u32,
    image_entity: NodeId,
    text_entity: NodeId,
}

impl View for MainButtonControl {
    type V = ControlState;

    closed spec fn view(&self) -> ControlState {
        ControlState {
            direction: self.animation_direction,
            progress: self.animation_transition as nat,
            image: self.image_entity,
            text: self.text_entity,
        }
    }
}

impl MainButtonControl {
    /// The progress is a fraction: it never exceeds one.
    pub open spec fn wf(&self) -> bool {
        self@.wf()
    }

    /// The state of a button that was just built: idle, at rest, tied to its
    /// two nodes.
    pub fn new(image_entity: NodeId, text_entity: NodeId) -> (control: MainButtonControl)
        ensures
            control@ == ControlState::fresh(image_entity, text_entity),
            control.wf(),
    {
        MainButtonControl {
            animation_direction: Direction::Idle,
            animation_transition: 0,
            image_entity,
            text_entity,
        }
    }

    /// The pointer has entered: the transition now runs forward, whatever it
    /// did before.
    pub fn pointer_enter(&mut self)
        ensures
            final(self)@ == old(self)@.entered(),
    {
        self.animation_direction = Direction::Forward;
    }

    /// The pointer has left: the transition now runs backward, whatever it
    /// did before.
    pub fn pointer_leave(&mut self)
        ensures
            final(self)@ == old(self)@.left(),
    {
        self.animation_direction = Direction::Backward;
    }

    /// Lets `elapsed_micros` microseconds pass. Moves the progress by the
    /// elapsed time times the rate in the current direction, held to the
    /// range from zero to one, and says what the collaborators are to do.
    pub fn update(&mut self, elapsed_micros: u64, palette: &Palette) -> (out: StepOutput)
        requires
            old(self).wf(),
        ensures
            final(self).wf(),
            final(self)@ == old(self)@.advanced(elapsed_micros as nat),
            out == old(self)@.output(elapsed_micros as nat, *palette),
    {
        let previous: u32 = self.animation_transition;
        let next: u32 = match self.animation_direction {
            Direction::Forward => advance_forward(previous, elapsed_micros),
            Direction::Backward => advance_backward(previous, elapsed_micros),
            Direction::Idle => previous,
        };
        self.animation_transition = next;
        let repaint = if next != previous {
            let blend = palette.blend(next);
            Some(
                Repaint {
                    image_color: SetColor { target: self.image_entity, color: blend.with_a(next) },
                    text_color: SetColor { target: self.text_entity, color: blend.with_a(UNIT) },
                    image_layout: SetUiLayout {
                        target: self.image_entity,
                        layout: UiLayout::window_full().x(SHIFT * next),
                    },
                },
            )
        } else {
            None
        };
        let cursor = match self.animation_direction {
            Direction::Forward => Some(
                CursorRequest { icon: CursorIcon::Copy, priority: UNIT },
            ),
            _ => None,
        };
        StepOutput { repaint, cursor }
    }

    /// Which way the transition is moving.
    pub fn animation_direction(&self) -> (d: Direction)
        ensures
            d == self@.direction,
    {
        self.animation_direction
    }

    /// How far the transition has come, in millionths.
    pub fn animation_transition(&self) -> (p: u32)
        ensures
            p == self@.progress,
    {
        self.animation_transition
    }

    /// The background node that this button instructs.
    pub fn image_entity(&self) -> (id: NodeId)
        ensures
            id == self@.image,
    {
        self.image_entity
    }

    /// The label node that this button instructs.
    pub fn text_entity(&self) -> (id: NodeId)
        ensures
            id == self@.text,
    {
        self.text_entity
    }
}

} // verus!
