//! What a button is made of: the request for one, the assets it needs, and
//! the three visual nodes that the builder describes for it.

use vstd::prelude::*;
use crate::color::{Palette, Rgba};
use crate::control::{ControlState, MainButtonControl, StepOutput};
use crate::layout::{Anchor, UiLayout};
use crate::node::{NodeId, NodePath};
use crate::units::UNIT;

verus! {

/// Asks for a button with the given label. Attaching one to an entity is what
/// makes the builder compose the button.
#[derive(Debug, Default, Clone, PartialEq)]
pub struct MainButton {
    pub text: String,
}

/// Refers to a loaded texture.
#[derive(Clone, Copy, Debug, PartialEq, Eq, Structural)]
pub struct TextureHandle(pub u64);

/// Refers to a loaded font.
#[derive(Clone, Copy, Debug, PartialEq, Eq, Structural)]
pub struct FontHandle(pub u64);

/// The assets on offer, by role. A role whose asset is not available holds
/// nothing.
#[derive(Clone, Copy, Debug, PartialEq, Eq, Structural)]
pub struct AssetCache {
    /// The texture behind every button.
    pub button: Option<TextureHandle>,
    /// The font of labels.
    pub font_medium: Option<FontHandle>,
    /// A heavier font. Buttons do not use it.
    pub font_bold: Option<FontHandle>,
}

/// Why a button could not be composed.
#[derive(Clone, Copy, Debug, PartialEq, Eq, Structural)]
pub enum BuildError {
    /// The background texture is not available.
    MissingTexture,
    /// The texture is there, but the label font is not.
    MissingFont,
}

/// Where the label sits inside the background: horizontally, in relative
/// layout units in millionths.
pub const LABEL_X: u32 = 5_000_000;

/// Where the label sits inside the background: vertically, in relative
/// layout units in millionths.
pub const LABEL_Y: u32 = 50_000_000;

/// The label's font size, in percent of the node's height.
pub const LABEL_FONT_SIZE: u32 = 60;

/// The width of the border that stays unscaled when the background texture is
/// stretched, in texels.
pub const SLICE_BORDER: u32 = 32;

/// The text of a label and how it is set.
#[derive(Debug, Clone, PartialEq)]
pub struct Label {
    pub text: String,
    pub font: FontHandle,
    pub font_size: u32,
}

/// Describes one visual node as it is to be created.
#[derive(Debug, Clone, PartialEq)]
pub struct VisualNode {
    /// The node's place in the button's tree.
    pub path: NodePath,
    /// The node's layout.
    pub layout: UiLayout,
    /// The colour it starts with.
    pub color: Rgba,
    /// The texture it shows, if it shows one.
    pub texture: Option<TextureHandle>,
    /// The border to keep unscaled, if the texture is sliced.
    pub slice_border: Option<u32>,
    /// The text it shows, if it shows one.
    pub label: Option<Label>,
    /// Whether the pointer can hit it.
    pub hit_testable: bool,
}

/// Describes the three nodes of one button.
#[derive(Debug, Clone, PartialEq)]
pub struct CompositionPlan {
    pub image: VisualNode,
    pub text: VisualNode,
    pub control: VisualNode,
}

/// The background: over the whole button, sliced, in the rest colour and
/// fully transparent, not hit-testable.
pub open spec fn image_node_spec(texture: TextureHandle, palette: Palette) -> VisualNode {
    VisualNode {
        path: NodePath::Image,
        layout: UiLayout::window_full_spec(),
        color: palette.rest.with_a_spec(0),
        texture: Some(texture),
        slice_border: Some(SLICE_BORDER),
        label: None,
        hit_testable: false,
    }
}

/// The label: the button's text, verbatim, in the rest colour and opaque,
/// anchored at its left centre, not hit-testable.
pub open spec fn text_node_spec(text: String, font: FontHandle, palette: Palette) -> VisualNode {
    VisualNode {
        path: NodePath::Text,
        layout: UiLayout {
            x: LABEL_X,
            y: LABEL_Y,
            full: false,
            anchor: Anchor::CenterLeft,
        },
        color: palette.rest.with_a_spec(UNIT),
        texture: None,
        slice_border: None,
        label: Some(Label { text, font, font_size: LABEL_FONT_SIZE }),
        hit_testable: false,
    }
}

/// The control surface: over the whole button, in the rest colour and fully
/// transparent, and the only node that the pointer can hit.
pub open spec fn control_node_spec(texture: TextureHandle, palette: Palette) -> VisualNode {
    VisualNode {
        path: NodePath::Control,
        layout: UiLayout::window_full_spec(),
        color: palette.rest.with_a_spec(0),
        texture: Some(texture),
        slice_border: None,
        label: None,
        hit_testable: true,
    }
}

/// The nodes of a button that asks for `source`, or the asset that is
/// missing: the texture if it is, else the font.
pub open spec fn plan_spec(source: MainButton, assets: AssetCache, palette: Palette) -> Result<
    CompositionPlan,
    BuildError,
> {
    match (assets.button, assets.font_medium) {
        (None, _) => Err(BuildError::MissingTexture),
        (Some(_), None) => Err(BuildError::MissingFont),
        (Some(texture), Some(font)) => Ok(
            CompositionPlan {
                image: image_node_spec(texture, palette),
                text: text_node_spec(source.text, font, palette),
                control: control_node_spec(texture, palette),
            },
        ),
    }
}

/// Describes the three nodes of a button that asks for `source`. Fails
/// without describing any node when the texture or the label font is
/// missing.
pub fn plan(source: &MainButton, assets: &AssetCache, palette: &Palette) -> (r: Result<
    CompositionPlan,
    BuildError,
>)
    ensures
        r == plan_spec(*source, *assets, *palette),
{
    let texture = match assets.button {
        Some(texture) => texture,
        None => {
            return Err(BuildError::MissingTexture);
        },
    };
    let font = match assets.font_medium {
        Some(font) => font,
        None => {
            return Err(BuildError::MissingFont);
        },
    };
    let rest = palette.rest;
    let image = VisualNode {
        path: NodePath::Image,
        layout: UiLayout::window_full(),
        color: rest.with_a(0),
        texture: Some(texture),
        slice_border: Some(SLICE_BORDER),
        label: None,
        hit_testable: NodePath::Image.hit_testable(),
    };
    let text = VisualNode {
        path: NodePath::Text,
        layout: UiLayout::window().pos(LABEL_X, LABEL_Y).anchor(Anchor::CenterLeft),
        color: rest.with_a(UNIT),
        texture: None,
        slice_border: None,
        label: Some(Label { text: source.text.clone(), font, font_size: LABEL_FONT_SIZE }),
        hit_testable: NodePath::Text.hit_testable(),
    };
    let control = VisualNode {
        path: NodePath::Control,
        layout: UiLayout::window_full(),
        color: rest.with_a(0),
        texture: Some(texture),
        slice_border: None,
        label: None,
        hit_testable: NodePath::Control.hit_testable(),
    };
    Ok(CompositionPlan { image, text, control })
}

/// In every plan the three nodes sit at the three fixed paths, the label
/// carries the requested text, both textured nodes start fully transparent,
/// and the control surface alone takes pointer hits.
pub proof fn lemma_plan_shape(source: MainButton, assets: AssetCache, palette: Palette)
    ensures
        plan_spec(source, assets, palette) is Ok <==> assets.button is Some
            && assets.font_medium is Some,
        plan_spec(source, assets, palette) matches Ok(p) ==> {
            &&& p.control.path == NodePath::Control
            &&& p.image.path == NodePath::Image
            &&& p.text.path == NodePath::Text
            &&& p.text.label matches Some(l) && l.text == source.text
            &&& p.image.color.a == 0
            &&& p.control.color.a == 0
            &&& p.control.hit_testable
            &&& !p.image.hit_testable
            &&& !p.text.hit_testable
        },
{
}

/// The mathematical content of a composition: the identities of its three
/// nodes and the state kept with the control node.
pub struct CompositionModel {
    pub control: NodeId,
    pub image: NodeId,
    pub text: NodeId,
    pub state: ControlState,
}

impl CompositionModel {
    /// A composition that was just built from the three nodes.
    pub open spec fn fresh(control: NodeId, image: NodeId, text: NodeId) -> CompositionModel {
        CompositionModel { control, image, text, state: ControlState::fresh(image, text) }
    }

    /// The state is valid and instructs the composition's own two nodes.
    pub open spec fn wf(self) -> bool {
        &&& self.state.wf()
        &&& self.state.image == self.image
        &&& self.state.text == self.text
    }

    /// The node at `path`.
    pub open spec fn node(self, path: NodePath) -> NodeId {
        match path {
            NodePath::Control => self.control,
            NodePath::Image => self.image,
            NodePath::Text => self.text,
        }
    }

    /// The composition with another state.
    pub open spec fn with_state(self, state: ControlState) -> CompositionModel {
        CompositionModel { state, ..self }
    }
}

/// The private tree of one button, by the identities of its nodes, and the
/// state kept with its control node.
#[derive(Clone, Copy, Debug, PartialEq, Eq)]
pub struct WidgetComposition {
    control: NodeId,
    image: NodeId,
    text: NodeId,
    state: MainButtonControl,
}

impl View for WidgetComposition {
    type V = CompositionModel;

    closed spec fn view(&self) -> CompositionModel {
        CompositionModel {
            control: self.control,
            image: self.image,
            text: self.text,
            state: self.state@,
        }
    }
}

impl WidgetComposition {
    /// The state is valid and instructs the composition's own two nodes.
    pub open spec fn wf(&self) -> bool {
        self@.wf()
    }

    /// Ties a fresh state to the three nodes that were created for a button.
    pub fn new(control: NodeId, image: NodeId, text: NodeId) -> (c: WidgetComposition)
        ensures
            c@ == CompositionModel::fresh(control, image, text),
            c.wf(),
    {
        WidgetComposition { control, image, text, state: MainButtonControl::new(image, text) }
    }

    /// The control surface.
    pub fn control(&self) -> (id: NodeId)
        ensures
            id == self@.control,
    {
        self.control
    }

    /// The background image.
    pub fn image(&self) -> (id: NodeId)
        ensures
            id == self@.image,
    {
        self.image
    }

    /// The label.
    pub fn text(&self) -> (id: NodeId)
        ensures
            id == self@.text,
    {
        self.text
    }

    /// The node at `path`.
    pub fn node(&self, path: NodePath) -> (id: NodeId)
        ensures
            id == self@.node(path),
    {
        match path {
            NodePath::Control => self.control,
            NodePath::Image => self.image,
            NodePath::Text => self.text,
        }
    }

    /// The state kept with the control node.
    pub fn state(&self) -> (s: &MainButtonControl)
        ensures
            s@ == self@.state,
    {
        &self.state
    }

    /// The pointer has entered the control surface.
    pub fn pointer_enter(&mut self)
        ensures
            final(self)@ == old(self)@.with_state(old(self)@.state.entered()),
    {
        self.state.pointer_enter();
    }

    /// The pointer has left the control surface.
    pub fn pointer_leave(&mut self)
        ensures
            final(self)@ == old(self)@.with_state(old(self)@.state.left()),
    {
        self.state.pointer_leave();
    }

    /// Lets `elapsed_micros` microseconds pass for this button.
    pub fn update(&mut self, elapsed_micros: u64, palette: &Palette) -> (out: StepOutput)
        requires
            old(self).wf(),
        ensures
            final(self).wf(),
            final(self)@ == old(self)@.with_state(old(self)@.state.advanced(elapsed_micros as nat)),
            out == old(self)@.state.output(elapsed_micros as nat, *palette),
    {
        self.state.update(elapsed_micros, palette)
    }
}

} // verus!
