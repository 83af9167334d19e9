//! All buttons of one interface, and the three steps that run over them in
//! every tick: the builder, the hover translator and the stepper.

use vstd::prelude::*;
use crate::color::Palette;
use crate::composition::{
    plan, plan_spec, AssetCache, BuildError, CompositionModel, MainButton, VisualNode,
    WidgetComposition,
};
use crate::control::{Direction, StepOutput};
use crate::instruction::{CursorRequest, SetColor, SetUiLayout};
use crate::node::{NodeId, NodePath};

verus! {

/// One entry of the node registry: the button that owns the node, and the
/// node's place in that button's tree.
#[derive(Clone, Copy, Debug, PartialEq, Eq, Structural)]
pub struct NodeLink {
    pub owner: usize,
    pub path: NodePath,
}

/// A pointer notification: the pointer has entered, or has left, `target`.
#[derive(Clone, Copy, Debug, PartialEq, Eq, Structural)]
pub struct Pointer {
    pub target: NodeId,
}

/// The mathematical content of one button entity.
pub struct ButtonModel {
    /// What was asked for.
    pub source: MainButton,
    /// Whether the builder has yet to see this button.
    pub added: bool,
    /// The button's tree, once it is built.
    pub composition: Option<CompositionModel>,
    /// Whether the entity has been destroyed.
    pub despawned: bool,
}

impl ButtonModel {
    /// A button that was just asked for.
    pub open spec fn requested(source: MainButton) -> ButtonModel {
        ButtonModel { source, added: true, composition: None, despawned: false }
    }

    /// What is left of a button that was destroyed: no tree, no state, and
    /// nothing for the builder to do.
    pub open spec fn gone(self) -> ButtonModel {
        ButtonModel { added: false, composition: None, despawned: true, ..self }
    }

    /// The button with the direction of its state replaced. A button without
    /// a tree has no state and stays as it is.
    pub open spec fn turned(self, direction: Direction) -> ButtonModel {
        match self.composition {
            Some(c) => ButtonModel {
                composition: Some(c.with_state(c.state.turned(direction))),
                ..self
            },
            None => self,
        }
    }

    /// The button after `elapsed_micros` microseconds. A button without a
    /// tree has no state and stays as it is.
    pub open spec fn advanced(self, elapsed_micros: nat) -> ButtonModel {
        match self.composition {
            Some(c) => ButtonModel {
                composition: Some(c.with_state(c.state.advanced(elapsed_micros))),
                ..self
            },
            None => self,
        }
    }

    /// What the button hands out in a tick of `elapsed_micros`. A button
    /// without a tree hands out nothing.
    pub open spec fn output(self, elapsed_micros: nat, palette: Palette) -> StepOutput {
        match self.composition {
            Some(c) => c.state.output(elapsed_micros, palette),
            None => StepOutput { repaint: None, cursor: None },
        }
    }
}

/// A node that the builder has created: its identity, the button it belongs
/// to, and what it is to look like.
#[derive(Debug, Clone, PartialEq)]
pub struct Spawned {
    pub id: NodeId,
    pub owner: usize,
    pub node: VisualNode,
}

/// A button that the builder could not compose, and why.
#[derive(Clone, Copy, Debug, PartialEq, Eq, Structural)]
pub struct BuildFailure {
    pub owner: usize,
    pub error: BuildError,
}

/// What one pass of the builder has done.
#[derive(Debug, Clone, PartialEq)]
pub struct BuildReport {
    /// The nodes it created, in the order of their identities: for each
    /// button the background, the label and the control surface.
    pub spawned: Vec<Spawned>,
    /// The buttons it had to give up.
    pub failed: Vec<BuildFailure>,
}

/// An interface together with what the builder has done to bring it about.
pub struct BuildOutcome {
    pub ui: UiModel,
    pub spawned: Seq<Spawned>,
    pub failed: Seq<BuildFailure>,
}

impl BuildOutcome {
    /// The outcome once the builder has also looked at button `i`.
    ///
    /// A button that it has seen before is passed over. Otherwise the button
    /// counts as seen from now on. If an asset is missing, the button is
    /// recorded as failed and gets nothing. If not, three new nodes are
    /// registered for it, with the next three identities: background, label,
    /// control surface. The button gets a fresh tree of these, and the three
    /// are reported with their descriptions.
    pub open spec fn step(self, i: int, assets: AssetCache) -> BuildOutcome {
        let b = self.ui.buttons[i];
        if !b.added {
            self
        } else {
            match plan_spec(b.source, assets, self.ui.palette) {
                Err(error) => BuildOutcome {
                    ui: UiModel {
                        buttons: self.ui.buttons.update(i, ButtonModel { added: false, ..b }),
                        ..self.ui
                    },
                    failed: self.failed.push(BuildFailure { owner: i as usize, error }),
                    ..self
                },
                Ok(p) => {
                    let base = self.ui.links.len();
                    let image = NodeId(base as u64);
                    let text = NodeId((base + 1) as u64);
                    let control = NodeId((base + 2) as u64);
                    let owner = i as usize;
                    BuildOutcome {
                        ui: UiModel {
                            buttons: self.ui.buttons.update(
                                i,
                                ButtonModel {
                                    added: false,
                                    composition: Some(
                                        CompositionModel::fresh(control, image, text),
                                    ),
                                    ..b
                                },
                            ),
                            links: self.ui.links.push(
                                Some(NodeLink { owner, path: NodePath::Image }),
                            ).push(Some(NodeLink { owner, path: NodePath::Text })).push(
                                Some(NodeLink { owner, path: NodePath::Control }),
                            ),
                            ..self.ui
                        },
                        spawned: self.spawned.push(
                            Spawned { id: image, owner, node: p.image },
                        ).push(Spawned { id: text, owner, node: p.text }).push(
                            Spawned { id: control, owner, node: p.control },
                        ),
                        failed: self.failed,
                    }
                },
            }
        }
    }
}

/// The instructions of one tick, each kind in the order the buttons were
/// stepped in.
pub struct FrameModel {
    pub set_color: Seq<SetColor>,
    pub set_layout: Seq<SetUiLayout>,
    pub cursor: Seq<CursorRequest>,
}

impl FrameModel {
    /// No instruction at all.
    pub open spec fn empty() -> FrameModel {
        FrameModel { set_color: Seq::empty(), set_layout: Seq::empty(), cursor: Seq::empty() }
    }

    /// These instructions followed by those of `out`: for a repaint the
    /// background's colour, the label's colour and the background's layout;
    /// for a pointer-icon request the request.
    pub open spec fn with(self, out: StepOutput) -> FrameModel {
        FrameModel {
            set_color: match out.repaint {
                Some(r) => self.set_color.push(r.image_color).push(r.text_color),
                None => self.set_color,
            },
            set_layout: match out.repaint {
                Some(r) => self.set_layout.push(r.image_layout),
                None => self.set_layout,
            },
            cursor: match out.cursor {
                Some(request) => self.cursor.push(request),
                None => self.cursor,
            },
        }
    }
}

/// The instructions of one tick, each kind in the order the buttons were
/// stepped in.
#[derive(Debug, Clone, PartialEq)]
pub struct FrameOutput {
    /// Colour changes: two for every button whose progress moved.
    pub set_color: Vec<SetColor>,
    /// Layout changes: one for every button whose progress moved.
    pub set_layout: Vec<SetUiLayout>,
    /// Pointer-icon requests: one for every button that runs forward.
    pub cursor: Vec<CursorRequest>,
}

impl View for FrameOutput {
    type V = FrameModel;

    open spec fn view(&self) -> FrameModel {
        FrameModel {
            set_color: self.set_color@,
            set_layout: self.set_layout@,
            cursor: self.cursor@,
        }
    }
}

/// One button entity: what was asked for, whether the builder has seen it,
/// and the tree that the builder gave it.
#[derive(Debug, Clone, PartialEq)]
pub struct Button {
    source: MainButton,
    added: bool,
    composition: Option<WidgetComposition>,
    despawned: bool,
}

impl View for Button {
    type V = ButtonModel;

    closed spec fn view(&self) -> ButtonModel {
        ButtonModel {
            source: self.source,
            added: self.added,
            composition: match self.composition {
                Some(c) => Some(c@),
                None => None,
            },
            despawned: self.despawned,
        }
    }
}

impl Button {
    /// What was asked for.
    pub fn source(&self) -> (s: &MainButton)
        ensures
            *s == self@.source,
    {
        &self.source
    }

    /// Whether the builder has yet to see this button.
    pub fn is_added(&self) -> (b: bool)
        ensures
            b == self@.added,
    {
        self.added
    }

    /// Whether the entity has been destroyed.
    pub fn is_despawned(&self) -> (b: bool)
        ensures
            b == self@.despawned,
    {
        self.despawned
    }

    /// The button's tree, once it is built.
    pub fn composition(&self) -> (c: Option<WidgetComposition>)
        ensures
            c is Some == self@.composition is Some,
            c matches Some(w) ==> self@.composition == Some(w@),
    {
        self.composition
    }
}

/// The mathematical content of an interface: its palette, its buttons by
/// entity, and its nodes by identity.
pub struct UiModel {
    pub palette: Palette,
    pub buttons: Seq<ButtonModel>,
    pub links: Seq<Option<NodeLink>>,
}

impl UiModel {
    /// An interface without buttons.
    pub open spec fn empty(palette: Palette) -> UiModel {
        UiModel { palette, buttons: Seq::empty(), links: Seq::empty() }
    }

    /// Whether node `id` is registered as the node at `path` of button
    /// `owner`.
    pub open spec fn links_to(self, id: NodeId, owner: int, path: NodePath) -> bool {
        &&& id.0 < self.links.len()
        &&& self.links[id.0 as int] matches Some(link)
        &&& link.owner == owner
        &&& link.path == path
    }

    /// The button whose control surface node `target` is, going by the
    /// registry.
    pub open spec fn control_owner(self, target: NodeId) -> Option<int> {
        if target.0 < self.links.len() {
            match self.links[target.0 as int] {
                Some(link) => if link.path == NodePath::Control {
                    Some(link.owner as int)
                } else {
                    None
                },
                None => None,
            }
        } else {
            None
        }
    }

    /// Button `i` is consistent: one that the builder has yet to see has no
    /// tree, one that was destroyed has none either and does not wait for
    /// the builder, and the three nodes of a tree are registered as that
    /// button's.
    pub open spec fn button_wf(self, i: int) -> bool {
        let b = self.buttons[i];
        &&& b.added ==> b.composition is None
        &&& b.despawned ==> !b.added && b.composition is None
        &&& b.composition matches Some(c) ==> {
            &&& c.wf()
            &&& self.links_to(c.control, i, NodePath::Control)
            &&& self.links_to(c.image, i, NodePath::Image)
            &&& self.links_to(c.text, i, NodePath::Text)
        }
    }

    /// Node `n` is consistent: unless it was destroyed, its owner exists,
    /// has a tree, and that tree holds the node at the registered path.
    pub open spec fn link_wf(self, n: int) -> bool {
        self.links[n] matches Some(link) ==> {
            &&& link.owner < self.buttons.len()
            &&& self.buttons[link.owner as int].composition matches Some(c) && c.node(
                link.path,
            ).0 == n
        }
    }

    /// Buttons and nodes refer to each other consistently.
    pub open spec fn wf(self) -> bool {
        &&& self.buttons.len() <= usize::MAX
        &&& self.links.len() <= usize::MAX
        &&& forall|i: int| 0 <= i < self.buttons.len() ==> #[trigger] self.button_wf(i)
        &&& forall|n: int| 0 <= n < self.links.len() ==> #[trigger] self.link_wf(n)
    }

    /// The interface with one more button asked for.
    pub open spec fn spawned(self, source: MainButton) -> UiModel {
        UiModel { buttons: self.buttons.push(ButtonModel::requested(source)), ..self }
    }

    /// The interface with button `i` destroyed: its tree and state are gone,
    /// and its three nodes are struck from the registry, so that events
    /// still addressed at them find nothing. Where there is no such button,
    /// or it was destroyed before, nothing changes.
    pub open spec fn despawned(self, i: int) -> UiModel {
        if 0 <= i < self.buttons.len() && !self.buttons[i].despawned {
            UiModel {
                buttons: self.buttons.update(i, self.buttons[i].gone()),
                links: match self.buttons[i].composition {
                    Some(c) => self.links.update(c.control.0 as int, None).update(
                        c.image.0 as int,
                        None,
                    ).update(c.text.0 as int, None),
                    None => self.links,
                },
                ..self
            }
        } else {
            self
        }
    }

    /// The outcome once the builder has looked at the first `n` buttons.
    pub open spec fn build_upto(self, n: nat, assets: AssetCache) -> BuildOutcome
        decreases n,
    {
        if n == 0 {
            BuildOutcome { ui: self, spawned: Seq::empty(), failed: Seq::empty() }
        } else {
            self.build_upto((n - 1) as nat, assets).step(n - 1, assets)
        }
    }

    /// The outcome of one pass of the builder over all buttons.
    pub open spec fn built(self, assets: AssetCache) -> BuildOutcome {
        self.build_upto(self.buttons.len(), assets)
    }

    /// Whether some event in `events` addresses the control surface of
    /// button `i`.
    pub open spec fn targeted(self, i: int, events: Seq<Pointer>) -> bool {
        self.buttons[i].composition matches Some(c) && events.contains(
            Pointer { target: c.control },
        )
    }

    /// The interface after the pointer events `events`: every button whose
    /// control surface one of them addresses has the direction `direction`,
    /// and nothing else has changed. Events addressed elsewhere have no
    /// effect.
    pub open spec fn hovered(self, events: Seq<Pointer>, direction: Direction) -> UiModel {
        UiModel {
            buttons: Seq::new(
                self.buttons.len(),
                |i: int|
                    if self.targeted(i, events) {
                        self.buttons[i].turned(direction)
                    } else {
                        self.buttons[i]
                    },
            ),
            ..self
        }
    }

    /// The interface after `elapsed_micros` microseconds: every button that
    /// has a tree has advanced, and nothing else has changed.
    pub open spec fn advanced(self, elapsed_micros: nat) -> UiModel {
        UiModel {
            buttons: Seq::new(
                self.buttons.len(),
                |i: int| self.buttons[i].advanced(elapsed_micros),
            ),
            ..self
        }
    }

    /// What the first `n` buttons hand out in a tick of `elapsed_micros`,
    /// button after button.
    pub open spec fn frame_upto(self, n: nat, elapsed_micros: nat) -> FrameModel
        decreases n,
    {
        if n == 0 {
            FrameModel::empty()
        } else {
            self.frame_upto((n - 1) as nat, elapsed_micros).with(
                self.buttons[n - 1].output(elapsed_micros, self.palette),
            )
        }
    }

    /// What the interface hands out in a tick of `elapsed_micros`.
    pub open spec fn frame(self, elapsed_micros: nat) -> FrameModel {
        self.frame_upto(self.buttons.len(), elapsed_micros)
    }
}

/// All buttons of one interface.
pub struct ButtonUi {
    palette: Palette,
    buttons: Vec<Button>,
    links: Vec<Option<NodeLink>>,
}

impl View for ButtonUi {
    type V = UiModel;

    closed spec fn view(&self) -> UiModel {
        UiModel {
            palette: self.palette,
            buttons: Seq::new(self.buttons@.len(), |i: int| self.buttons@[i]@),
            links: self.links@,
        }
    }
}

impl ButtonUi {
    /// Buttons and nodes refer to each other consistently.
    pub open spec fn wf(&self) -> bool {
        self@.wf()
    }

    /// An interface without buttons, whose buttons will move between the two
    /// colours of `palette`.
    pub fn new(palette: Palette) -> (ui: ButtonUi)
        ensures
            ui@ == UiModel::empty(palette),
            ui.wf(),
    {
        let ui = ButtonUi { palette, buttons: Vec::new(), links: Vec::new() };
        assert(ui@.buttons =~= Seq::empty());
        ui
    }

    /// The two colours that the buttons move between.
    pub fn palette(&self) -> (p: Palette)
        ensures
            p == self@.palette,
    {
        self.palette
    }

    /// How many button entities were ever asked for: the next entity.
    pub fn len(&self) -> (n: usize)
        ensures
            n == self@.buttons.len(),
    {
        self.buttons.len()
    }

    /// How many visual nodes the builder has ever created: the next node's
    /// identity.
    pub fn node_count(&self) -> (n: usize)
        ensures
            n == self@.links.len(),
    {
        self.links.len()
    }

    /// The button entity `entity`, if there is one and it was not destroyed.
    pub fn button(&self, entity: usize) -> (b: Option<&Button>)
        ensures
            b is Some <==> entity < self@.buttons.len() && !self@.buttons[entity as int].despawned,
            b matches Some(button) ==> button@ == self@.buttons[entity as int],
    {
        if entity < self.buttons.len() && !self.buttons[entity].despawned {
            Some(&self.buttons[entity])
        } else {
            None
        }
    }

    /// The button that owns node `id` and the node's place in its tree, if
    /// there is such a node and it was not destroyed.
    pub fn link(&self, id: NodeId) -> (l: Option<NodeLink>)
        ensures
            l == if id.0 < self@.links.len() {
                self@.links[id.0 as int]
            } else {
                None
            },
    {
        if id.0 < self.links.len() as u64 {
            self.links[id.0 as usize]
        } else {
            None
        }
    }

    /// Asks for a button: attaches `source` to a new entity and returns the
    /// entity. The button has no tree until the builder has run.
    pub fn spawn(&mut self, source: MainButton) -> (entity: usize)
        requires
            old(self).wf(),
        ensures
            final(self).wf(),
            final(self)@ == old(self)@.spawned(source),
            entity == old(self)@.buttons.len(),
    {
        let entity = self.buttons.len();
        self.buttons.push(Button { source, added: true, composition: None, despawned: false });
        proof {
            assert(self.buttons@.len() == self.buttons.len());
            assert(self@.buttons =~= old(self)@.buttons.push(ButtonModel::requested(source)));
            let m = self@;
            let o = old(self)@;
            assert forall|i: int| 0 <= i < m.buttons.len() implies #[trigger] m.button_wf(i) by {
                if i < o.buttons.len() {
                    assert(o.button_wf(i));
                }
            }
            assert forall|n: int| 0 <= n < m.links.len() implies #[trigger] m.link_wf(n) by {
                assert(o.link_wf(n));
            }
        }
        entity
    }

    /// Destroys the button entity `entity` with its tree and its state, and
    /// says whether there was such a button. Events that still name one of
    /// its nodes are ignored from now on.
    pub fn despawn(&mut self, entity: usize) -> (existed: bool)
        requires
            old(self).wf(),
        ensures
            final(self).wf(),
            final(self)@ == old(self)@.despawned(entity as int),
            existed == (entity < old(self)@.buttons.len() && !old(self)@.buttons[entity as int].despawned),
    {
        if entity >= self.buttons.len() {
            return false;
        }
        if self.buttons[entity].despawned {
            return false;
        }
        assert(self@.button_wf(entity as int));
        match self.buttons[entity].composition {
            Some(c) => {
                self.links[c.control().0 as usize] = None;
                self.links[c.image().0 as usize] = None;
                self.links[c.text().0 as usize] = None;
            },
            None => {},
        }
        self.buttons[entity].composition = None;
        self.buttons[entity].added = false;
        self.buttons[entity].despawned = true;
        proof {
            assert(self@.buttons =~= old(self)@.despawned(entity as int).buttons);
            assert(self@.links =~= old(self)@.despawned(entity as int).links);
            lemma_despawned_wf(old(self)@, entity as int);
        }
        true
    }

    /// One pass of the builder: composes every button that it has not seen
    /// before, in the order of the entities, and reports the nodes it
    /// created. A button for which an asset is missing gets no node at all
    /// and is reported as failed; it is not tried again, and the buttons
    /// after it are built all the same.
    pub fn build_system(&mut self, assets: &AssetCache) -> (report: BuildReport)
        requires
            old(self).wf(),
        ensures
            final(self).wf(),
            final(self)@ == old(self)@.built(*assets).ui,
            report.spawned@ == old(self)@.built(*assets).spawned,
            report.failed@ == old(self)@.built(*assets).failed,
    {
        let mut report = BuildReport { spawned: Vec::new(), failed: Vec::new() };
        let mut i: usize = 0;
        proof {
            assert(self@.buttons =~= old(self)@.buttons);
        }
        while i < self.buttons.len()
            invariant
                i <= self.buttons.len(),
                self.wf(),
                self@.buttons.len() == old(self)@.buttons.len(),
                (BuildOutcome { ui: self@, spawned: report.spawned@, failed: report.failed@ })
                    == old(self)@.build_upto(i as nat, *assets),
            decreases self.buttons.len() - i,
        {
            let ghost before = BuildOutcome {
                ui: self@,
                spawned: report.spawned@,
                failed: report.failed@,
            };
            assert(before.ui.button_wf(i as int));
            if self.buttons[i].added {
                let planned = plan(&self.buttons[i].source, assets, &self.palette);
                self.buttons[i].added = false;
                match planned {
                    Ok(p) => {
                        let image = NodeId(self.links.len() as u64);
                        self.links.push(Some(NodeLink { owner: i, path: NodePath::Image }));
                        let text = NodeId(self.links.len() as u64);
                        self.links.push(Some(NodeLink { owner: i, path: NodePath::Text }));
                        let control = NodeId(self.links.len() as u64);
                        self.links.push(Some(NodeLink { owner: i, path: NodePath::Control }));
                        self.buttons[i].composition = Some(
                            WidgetComposition::new(control, image, text),
                        );
                        report.spawned.push(Spawned { id: image, owner: i, node: p.image });
                        report.spawned.push(Spawned { id: text, owner: i, node: p.text });
                        report.spawned.push(Spawned { id: control, owner: i, node: p.control });
                    },
                    Err(error) => {
                        report.failed.push(BuildFailure { owner: i, error });
                    },
                }
            }
            proof {
                let after = BuildOutcome {
                    ui: self@,
                    spawned: report.spawned@,
                    failed: report.failed@,
                };
                assert(after.ui.buttons =~= before.step(i as int, *assets).ui.buttons);
                assert(after.ui.links =~= before.step(i as int, *assets).ui.links);
                assert(after.spawned =~= before.step(i as int, *assets).spawned);
                assert(after.failed =~= before.step(i as int, *assets).failed);
                assert(self.links@.len() == self.links.len());
                lemma_build_step_wf(before, i as int, *assets);
            }
            i = i + 1;
        }
        report
    }

    /// The pointer has entered every node that `events` names: each button
    /// whose control surface is among them now runs forward. The queue is
    /// drained.
    pub fn pointer_enter_system(&mut self, events: &mut Vec<Pointer>)
        requires
            old(self).wf(),
        ensures
            final(self).wf(),
            final(self)@ == old(self)@.hovered(old(events)@, Direction::Forward),
            final(events)@.len() == 0,
    {
        self.hover(events, Direction::Forward);
        events.clear();
    }

    /// The pointer has left every node that `events` names: each button
    /// whose control surface is among them now runs backward. The queue is
    /// drained.
    pub fn pointer_leave_system(&mut self, events: &mut Vec<Pointer>)
        requires
            old(self).wf(),
        ensures
            final(self).wf(),
            final(self)@ == old(self)@.hovered(old(events)@, Direction::Backward),
            final(events)@.len() == 0,
    {
        self.hover(events, Direction::Backward);
        events.clear();
    }

    /// Lets `elapsed_micros` microseconds pass for every button that has a
    /// tree, and collects what the buttons hand out.
    pub fn update_system(&mut self, elapsed_micros: u64) -> (out: FrameOutput)
        requires
            old(self).wf(),
        ensures
            final(self).wf(),
            final(self)@ == old(self)@.advanced(elapsed_micros as nat),
            out@ == old(self)@.frame(elapsed_micros as nat),
    {
        let mut out = FrameOutput { set_color: Vec::new(), set_layout: Vec::new(), cursor: Vec::new() };
        let ghost elapsed = elapsed_micros as nat;
        let mut i: usize = 0;
        proof {
            assert(self@.buttons =~= old(self)@.buttons);
        }
        while i < self.buttons.len()
            invariant
                i <= self.buttons.len(),
                elapsed == elapsed_micros as nat,
                old(self).wf(),
                self@.palette == old(self)@.palette,
                self@.links == old(self)@.links,
                self@.buttons.len() == old(self)@.buttons.len(),
                forall|j: int|
                    0 <= j < i ==> self@.buttons[j] == #[trigger] old(self)@.buttons[j].advanced(
                        elapsed,
                    ),
                forall|j: int|
                    i <= j < self@.buttons.len() ==> self@.buttons[j] == #[trigger] old(
                        self,
                    )@.buttons[j],
                out@ == old(self)@.frame_upto(i as nat, elapsed),
            decreases self.buttons.len() - i,
        {
            assert(old(self)@.button_wf(i as int));
            match self.buttons[i].composition {
                Some(mut c) => {
                    let step = c.update(elapsed_micros, &self.palette);
                    self.buttons[i].composition = Some(c);
                    match step.repaint {
                        Some(r) => {
                            out.set_color.push(r.image_color);
                            out.set_color.push(r.text_color);
                            out.set_layout.push(r.image_layout);
                        },
                        None => {},
                    }
                    match step.cursor {
                        Some(request) => {
                            out.cursor.push(request);
                        },
                        None => {},
                    }
                },
                None => {},
            }
            i = i + 1;
        }
        proof {
            assert(self@.buttons =~= old(self)@.advanced(elapsed).buttons);
            lemma_advanced_wf(old(self)@, elapsed);
        }
        out
    }

    fn hover(&mut self, events: &Vec<Pointer>, direction: Direction)
        requires
            old(self).wf(),
            direction != Direction::Idle,
        ensures
            final(self).wf(),
            final(self)@ == old(self)@.hovered(events@, direction),
    {
        let mut k: usize = 0;
        proof {
            lemma_hovered_none(self@, direction);
            assert(events@.take(0) =~= Seq::<Pointer>::empty());
        }
        while k < events.len()
            invariant
                k <= events.len(),
                direction != Direction::Idle,
                old(self).wf(),
                self.wf(),
                self@ == old(self)@.hovered(events@.take(k as int), direction),
            decreases events.len() - k,
        {
            let target = events[k].target;
            let ghost before = self@;
            if target.0 < self.links.len() as u64 {
                match self.links[target.0 as usize] {
                    Some(NodeLink { owner, path: NodePath::Control }) => {
                        assert(before.link_wf(target.0 as int));
                        match self.buttons[owner].composition {
                            Some(mut c) => {
                                match direction {
                                    Direction::Forward => c.pointer_enter(),
                                    _ => c.pointer_leave(),
                                }
                                self.buttons[owner].composition = Some(c);
                            },
                            None => {},
                        }
                        assert(self@.buttons =~= before.buttons.update(
                            owner as int,
                            before.buttons[owner as int].turned(direction),
                        ));
                    },
                    _ => {},
                }
            }
            proof {
                lemma_hovered_one(before, events@[k as int], direction);
                lemma_hovered_step(old(self)@, events@, k as int, direction);
                lemma_hovered_wf(old(self)@, events@.take(k + 1), direction);
            }
            k = k + 1;
        }
        assert(events@.take(events@.len() as int) =~= events@);
    }
}

/// Pointer events leave a consistent interface consistent.
pub proof fn lemma_hovered_wf(m: UiModel, events: Seq<Pointer>, direction: Direction)
    requires
        m.wf(),
    ensures
        m.hovered(events, direction).wf(),
{
    let h = m.hovered(events, direction);
    assert forall|i: int| 0 <= i < h.buttons.len() implies #[trigger] h.button_wf(i) by {
        assert(m.button_wf(i));
    }
    assert forall|n: int| 0 <= n < h.links.len() implies #[trigger] h.link_wf(n) by {
        assert(m.link_wf(n));
    }
}

/// Destroying a button leaves a consistent interface consistent.
pub proof fn lemma_despawned_wf(m: UiModel, i: int)
    requires
        m.wf(),
    ensures
        m.despawned(i).wf(),
{
    let h = m.despawned(i);
    if 0 <= i < m.buttons.len() && !m.buttons[i].despawned {
        assert(m.button_wf(i));
        assert forall|j: int| 0 <= j < h.buttons.len() implies #[trigger] h.button_wf(j) by {
            assert(m.button_wf(j));
        }
        assert forall|n: int| 0 <= n < h.links.len() implies #[trigger] h.link_wf(n) by {
            assert(m.link_wf(n));
        }
    }
}

/// The builder's work on one button leaves a consistent interface
/// consistent, as long as the new identities are within the machine's range.
pub proof fn lemma_build_step_wf(o: BuildOutcome, i: int, assets: AssetCache)
    requires
        o.ui.wf(),
        0 <= i < o.ui.buttons.len(),
        o.step(i, assets).ui.links.len() <= usize::MAX,
    ensures
        o.step(i, assets).ui.wf(),
        o.step(i, assets).ui.buttons.len() == o.ui.buttons.len(),
{
    let m = o.ui;
    let h = o.step(i, assets).ui;
    assert(m.button_wf(i));
    assert forall|j: int| 0 <= j < h.buttons.len() implies #[trigger] h.button_wf(j) by {
        assert(m.button_wf(j));
    }
    assert forall|n: int| 0 <= n < h.links.len() implies #[trigger] h.link_wf(n) by {
        if n < m.links.len() {
            assert(m.link_wf(n));
        }
    }
}

/// A tick leaves a consistent interface consistent: in particular every
/// progress is still a fraction between zero and one.
pub proof fn lemma_advanced_wf(m: UiModel, elapsed_micros: nat)
    requires
        m.wf(),
    ensures
        m.advanced(elapsed_micros).wf(),
{
    let h = m.advanced(elapsed_micros);
    assert forall|i: int| 0 <= i < h.buttons.len() implies #[trigger] h.button_wf(i) by {
        assert(m.button_wf(i));
    }
    assert forall|n: int| 0 <= n < h.links.len() implies #[trigger] h.link_wf(n) by {
        assert(m.link_wf(n));
    }
}

/// Without events nothing changes.
pub proof fn lemma_hovered_none(m: UiModel, direction: Direction)
    ensures
        m.hovered(Seq::empty(), direction) == m,
{
    assert(m.hovered(Seq::empty(), direction).buttons =~= m.buttons);
}

/// In a consistent interface one event changes at most one button: the one
/// that the registry names as the owner of the control surface addressed. An
/// event addressed at anything else changes nothing.
pub proof fn lemma_hovered_one(m: UiModel, event: Pointer, direction: Direction)
    requires
        m.wf(),
    ensures
        m.hovered(seq![event], direction) == match m.control_owner(event.target) {
            Some(owner) => UiModel {
                buttons: m.buttons.update(owner, m.buttons[owner].turned(direction)),
                ..m
            },
            None => m,
        },
{
    let n = event.target.0 as int;
    let events = seq![event];
    let h = m.hovered(events, direction);
    assert(events[0] == event);
    match m.control_owner(event.target) {
        Some(owner) => {
            assert(m.link_wf(n));
            let expected = m.buttons.update(owner, m.buttons[owner].turned(direction));
            assert forall|i: int| 0 <= i < m.buttons.len() implies h.buttons[i]
                == expected[i] by {
                assert(m.button_wf(i));
                if i != owner && m.targeted(i, events) {
                    assert(false);
                }
            }
            assert(h.buttons =~= expected);
        },
        None => {
            assert forall|i: int| 0 <= i < m.buttons.len() implies h.buttons[i]
                == m.buttons[i] by {
                assert(m.button_wf(i));
            }
            assert(h.buttons =~= m.buttons);
        },
    }
}

/// Taking the events one after the other gives what taking them together
/// gives.
pub proof fn lemma_hovered_step(m: UiModel, events: Seq<Pointer>, k: int, direction: Direction)
    requires
        0 <= k < events.len(),
    ensures
        m.hovered(events.take(k), direction).hovered(seq![events[k]], direction) == m.hovered(
            events.take(k + 1),
            direction,
        ),
{
    let head = events.take(k);
    let upto = events.take(k + 1);
    let one = seq![events[k]];
    let first = m.hovered(head, direction);
    let both = first.hovered(one, direction);
    let all = m.hovered(upto, direction);
    assert(one[0] == events[k]);
    assert(upto[k] == events[k]);
    assert forall|i: int| 0 <= i < m.buttons.len() implies both.buttons[i] == all.buttons[i] by {
        if m.buttons[i].composition is Some {
            let p = Pointer { target: m.buttons[i].composition->Some_0.control };
            if head.contains(p) {
                let j = choose|j: int| 0 <= j < head.len() && head[j] == p;
                assert(upto[j] == p);
            }
            if upto.contains(p) {
                let j = choose|j: int| 0 <= j < upto.len() && upto[j] == p;
                if j < k {
                    assert(head[j] == p);
                }
            }
        }
    }
    assert(both.buttons =~= all.buttons);
}

} // verus!
