//! What holds of an interface whatever the builder, the pointer and the
//! clock do to it.

use vstd::prelude::*;
use crate::composition::{plan_spec, AssetCache, CompositionModel};
use crate::control::{ControlState, Direction};
use crate::node::NodePath;
use crate::ui::{lemma_build_step_wf, BuildOutcome, NodeLink, Pointer, UiModel};
use crate::units::UNIT;

verus! {

/// In a consistent interface a button that has a tree has exactly one node at
/// each of the three paths, and a button without a tree has none: the node
/// that the tree names is registered for the button at that path, and no
/// other node is.
pub proof fn lemma_one_node_per_path(m: UiModel, i: int, path: NodePath, n: int)
    requires
        m.wf(),
        0 <= i < m.buttons.len(),
        0 <= n < m.links.len(),
    ensures
        m.buttons[i].composition matches Some(c) ==> m.links_to(c.node(path), i, path),
        m.links[n] == Some(NodeLink { owner: i as usize, path }) <==> (m.buttons[i].composition
            matches Some(c) && c.node(path).0 == n),
{
    assert(m.button_wf(i));
    assert(m.link_wf(n));
}

/// In a consistent interface no node belongs to two trees, and within a tree
/// the three nodes differ.
pub proof fn lemma_nodes_distinct(m: UiModel, i: int, p: NodePath, j: int, q: NodePath)
    requires
        m.wf(),
        0 <= i < m.buttons.len(),
        0 <= j < m.buttons.len(),
        m.buttons[i].composition is Some,
        m.buttons[j].composition is Some,
    ensures
        m.buttons[i].composition->Some_0.node(p) == m.buttons[j].composition->Some_0.node(q)
            ==> i == j && p == q,
{
    assert(m.button_wf(i));
    assert(m.button_wf(j));
}

/// In a consistent interface the progress of every button is a fraction
/// between zero and one.
pub proof fn lemma_progress_in_range(m: UiModel, i: int)
    requires
        m.wf(),
        0 <= i < m.buttons.len(),
    ensures
        m.buttons[i].composition matches Some(c) ==> c.state.progress <= UNIT,
{
    assert(m.button_wf(i));
}

/// What the builder has done after the first `n` buttons: the buttons from
/// `n` on are untouched, none of the first `n` is waiting for the builder any
/// more, and one that was not waiting is as it was. No button is added or
/// removed, and the registry only grows, by at most three nodes a button.
pub proof fn lemma_build_upto(m: UiModel, n: nat, assets: AssetCache)
    requires
        n <= m.buttons.len(),
    ensures
        m.build_upto(n, assets).ui.palette == m.palette,
        m.build_upto(n, assets).ui.buttons.len() == m.buttons.len(),
        m.links.len() <= m.build_upto(n, assets).ui.links.len() <= m.links.len() + 3 * n,
        forall|j: int|
            n <= j < m.buttons.len() ==> #[trigger] m.build_upto(n, assets).ui.buttons[j]
                == m.buttons[j],
        forall|j: int|
            0 <= j < n && !m.buttons[j].added ==> #[trigger] m.build_upto(n, assets).ui.buttons[j]
                == m.buttons[j],
        forall|j: int|
            0 <= j < n ==> !(#[trigger] m.build_upto(n, assets).ui.buttons[j]).added,
        forall|j: int|
            0 <= j < n ==> (#[trigger] m.build_upto(n, assets).ui.buttons[j]).source
                == m.buttons[j].source,
    decreases n,
{
    if n > 0 {
        lemma_build_upto(m, (n - 1) as nat, assets);
        let prev = m.build_upto((n - 1) as nat, assets);
        let next = m.build_upto(n, assets);
        assert(next == prev.step(n - 1, assets));
        assert(prev.ui.buttons[n - 1] == m.buttons[n - 1]);
        assert forall|j: int| 0 <= j < m.buttons.len() && j != n - 1 implies next.ui.buttons[j]
            == prev.ui.buttons[j] by {}
    }
}

/// Among the first `n` buttons, one that was waiting and had no tree has a
/// fresh tree after the builder if the assets were there, and none if not.
pub proof fn lemma_build_upto_composes(m: UiModel, n: nat, assets: AssetCache)
    requires
        n <= m.buttons.len(),
        forall|j: int|
            0 <= j < m.buttons.len() && (#[trigger] m.buttons[j]).added
                ==> m.buttons[j].composition is None,
    ensures
        forall|j: int|
            0 <= j < n && m.buttons[j].added ==> match (#[trigger] m.build_upto(
                n,
                assets,
            ).ui.buttons[j]).composition {
                Some(c) => plan_spec(m.buttons[j].source, assets, m.palette) is Ok && c
                    == CompositionModel::fresh(c.control, c.image, c.text),
                None => plan_spec(m.buttons[j].source, assets, m.palette) is Err,
            },
    decreases n,
{
    if n > 0 {
        lemma_build_upto_composes(m, (n - 1) as nat, assets);
        lemma_build_upto(m, (n - 1) as nat, assets);
        let prev = m.build_upto((n - 1) as nat, assets);
        let next = m.build_upto(n, assets);
        assert(next == prev.step(n - 1, assets));
        assert(prev.ui.buttons[n - 1] == m.buttons[n - 1]);
        assert forall|j: int| 0 <= j < m.buttons.len() && j != n - 1 implies next.ui.buttons[j]
            == prev.ui.buttons[j] by {}
    }
}

/// One pass of the builder leaves no button waiting, touches no button that
/// it had seen before, and composes each of the others if and only if the
/// texture and the label font are there. A tree that it makes starts idle
/// and at rest.
pub proof fn lemma_built_buttons(m: UiModel, assets: AssetCache, i: int)
    requires
        m.wf(),
        0 <= i < m.buttons.len(),
    ensures
        m.built(assets).ui.buttons.len() == m.buttons.len(),
        !m.built(assets).ui.buttons[i].added,
        m.built(assets).ui.buttons[i].source == m.buttons[i].source,
        !m.buttons[i].added ==> m.built(assets).ui.buttons[i] == m.buttons[i],
        m.buttons[i].added ==> (m.built(assets).ui.buttons[i].composition is Some <==> (
        assets.button is Some && assets.font_medium is Some)),
        m.buttons[i].added ==> (m.built(assets).ui.buttons[i].composition matches Some(c)
            ==> c.state == ControlState::fresh(c.image, c.text)),
{
    assert forall|j: int| 0 <= j < m.buttons.len() && (#[trigger] m.buttons[j]).added implies
        m.buttons[j].composition is None by {
        assert(m.button_wf(j));
    }
    lemma_build_upto(m, m.buttons.len(), assets);
    lemma_build_upto_composes(m, m.buttons.len(), assets);
    let b = m.built(assets).ui.buttons[i];
    assert(b == m.build_upto(m.buttons.len(), assets).ui.buttons[i]);
}

/// A pass over an interface in which no button is waiting does nothing.
pub proof fn lemma_build_upto_settled(m: UiModel, n: nat, assets: AssetCache)
    requires
        n <= m.buttons.len(),
        forall|j: int| 0 <= j < m.buttons.len() ==> !(#[trigger] m.buttons[j]).added,
    ensures
        m.build_upto(n, assets) == (BuildOutcome {
            ui: m,
            spawned: Seq::empty(),
            failed: Seq::empty(),
        }),
    decreases n,
{
    if n > 0 {
        lemma_build_upto_settled(m, (n - 1) as nat, assets);
        assert(!m.buttons[n - 1].added);
    }
}

/// Running the builder again creates nothing: after one pass a second one,
/// with whatever assets, leaves the interface as it is, reports no node and
/// no failure. A button that was given up is not tried again, and no button
/// gets a second tree.
pub proof fn lemma_build_is_idempotent(m: UiModel, first: AssetCache, second: AssetCache)
    ensures
        m.built(first).ui.built(second) == (BuildOutcome {
            ui: m.built(first).ui,
            spawned: Seq::empty(),
            failed: Seq::empty(),
        }),
{
    lemma_build_upto(m, m.buttons.len(), first);
    let once = m.built(first).ui;
    lemma_build_upto_settled(once, once.buttons.len(), second);
}

/// The builder leaves a consistent interface consistent, as long as the
/// identities it may need are within the machine's range.
pub proof fn lemma_build_upto_wf(m: UiModel, n: nat, assets: AssetCache)
    requires
        m.wf(),
        n <= m.buttons.len(),
        m.links.len() + 3 * m.buttons.len() <= usize::MAX,
    ensures
        m.build_upto(n, assets).ui.wf(),
    decreases n,
{
    if n > 0 {
        lemma_build_upto_wf(m, (n - 1) as nat, assets);
        lemma_build_upto(m, (n - 1) as nat, assets);
        lemma_build_upto(m, n, assets);
        lemma_build_step_wf(m.build_upto((n - 1) as nat, assets), n - 1, assets);
    }
}

/// After any pass of the builder every button that has a tree has exactly one
/// control node: the registry names the button's control node as its own, and
/// no other node as a control node of that button.
pub proof fn lemma_one_control_after_build(m: UiModel, assets: AssetCache, i: int, n: int)
    requires
        m.wf(),
        m.links.len() + 3 * m.buttons.len() <= usize::MAX,
        0 <= i < m.buttons.len(),
        0 <= n < m.built(assets).ui.links.len(),
    ensures
        m.built(assets).ui.buttons[i].composition matches Some(c) ==> m.built(
            assets,
        ).ui.links_to(c.control, i, NodePath::Control),
        m.built(assets).ui.links[n] == Some(
            NodeLink { owner: i as usize, path: NodePath::Control },
        ) <==> (m.built(assets).ui.buttons[i].composition matches Some(c) && c.control.0 == n),
{
    lemma_build_upto_wf(m, m.buttons.len(), assets);
    lemma_build_upto(m, m.buttons.len(), assets);
    lemma_one_node_per_path(m.built(assets).ui, i, NodePath::Control, n);
}

/// Pointer events set a direction and do not add up: the same events twice,
/// or in two batches, give what they give once together.
pub proof fn lemma_hover_overrides(
    m: UiModel,
    first: Seq<Pointer>,
    second: Seq<Pointer>,
    direction: Direction,
)
    ensures
        m.hovered(first, direction).hovered(first, direction) == m.hovered(first, direction),
        m.hovered(first + first, direction) == m.hovered(first, direction),
        m.hovered(first, direction).hovered(second, direction) == m.hovered(
            first + second,
            direction,
        ),
{
    let once = m.hovered(first, direction);
    assert(once.hovered(first, direction).buttons =~= once.buttons);
    let doubled = first + first;
    assert forall|i: int| 0 <= i < m.buttons.len() implies m.targeted(i, doubled) == m.targeted(
        i,
        first,
    ) by {
        lemma_targeted_concat(m, i, first, first);
    }
    assert(m.hovered(doubled, direction).buttons =~= once.buttons);
    let joined = first + second;
    assert forall|i: int| 0 <= i < m.buttons.len() implies m.targeted(i, joined) == (m.targeted(
        i,
        first,
    ) || m.targeted(i, second)) by {
        lemma_targeted_concat(m, i, first, second);
    }
    assert(once.hovered(second, direction).buttons =~= m.hovered(joined, direction).buttons);
}

/// A button is addressed by two batches of events together exactly when one
/// of the batches addresses it.
pub proof fn lemma_targeted_concat(m: UiModel, i: int, first: Seq<Pointer>, second: Seq<Pointer>)
    ensures
        m.targeted(i, first + second) == (m.targeted(i, first) || m.targeted(i, second)),
{
    if m.buttons[i].composition is Some {
        let p = Pointer { target: m.buttons[i].composition->Some_0.control };
        let joined = first + second;
        if first.contains(p) {
            let k = choose|k: int| 0 <= k < first.len() && first[k] == p;
            assert(joined[k] == p);
        }
        if second.contains(p) {
            let k = choose|k: int| 0 <= k < second.len() && second[k] == p;
            assert(joined[first.len() + k] == p);
        }
        if joined.contains(p) {
            let k = choose|k: int| 0 <= k < joined.len() && joined[k] == p;
            if k < first.len() {
                assert(first[k] == p);
            } else {
                assert(second[k - first.len()] == p);
            }
        }
    }
}

/// After pointer events the direction of a button is the events' direction if
/// one of them addressed its control surface, and what it was if none did.
/// Its progress and its nodes are untouched either way.
pub proof fn lemma_hovered_button(m: UiModel, events: Seq<Pointer>, direction: Direction, i: int)
    requires
        0 <= i < m.buttons.len(),
        m.buttons[i].composition is Some,
    ensures
        ({
            let before = m.buttons[i].composition->Some_0;
            let after = m.hovered(events, direction).buttons[i].composition->Some_0;
            &&& m.hovered(events, direction).buttons[i].composition is Some
            &&& after.state.direction == if events.contains(Pointer { target: before.control }) {
                direction
            } else {
                before.state.direction
            }
            &&& after.state.progress == before.state.progress
            &&& after.control == before.control
            &&& after.image == before.image
            &&& after.text == before.text
        }),
{
}

/// An event addressed at a node that is no control surface, or at no node at
/// all, changes nothing.
pub proof fn lemma_stray_event_ignored(m: UiModel, event: Pointer, direction: Direction)
    requires
        m.wf(),
        m.control_owner(event.target) is None,
    ensures
        m.hovered(seq![event], direction) == m,
{
    crate::ui::lemma_hovered_one(m, event, direction);
}

/// Destroying a button takes its tree and its state with it and touches no
/// other button. Its entity and the identities of its nodes are not given out
/// again, and an event that still names one of its nodes changes nothing.
/// Destroying it a second time does nothing.
pub proof fn lemma_despawned_button(m: UiModel, i: int, j: int, path: NodePath, direction: Direction)
    requires
        m.wf(),
        0 <= i < m.buttons.len(),
        0 <= j < m.buttons.len(),
    ensures
        m.despawned(i).buttons.len() == m.buttons.len(),
        m.despawned(i).links.len() == m.links.len(),
        m.despawned(i).buttons[i].despawned,
        m.despawned(i).buttons[i].composition is None,
        !m.despawned(i).buttons[i].added,
        j != i ==> m.despawned(i).buttons[j] == m.buttons[j],
        m.buttons[i].composition matches Some(c) ==> m.despawned(i).links[c.node(path).0 as int]
            is None && m.despawned(i).hovered(seq![Pointer { target: c.node(path) }], direction)
            == m.despawned(i),
        m.despawned(i).despawned(i) == m.despawned(i),
{
    assert(m.button_wf(i));
    crate::ui::lemma_despawned_wf(m, i);
    if m.buttons[i].composition is Some {
        let c = m.buttons[i].composition->Some_0;
        crate::ui::lemma_hovered_one(m.despawned(i), Pointer { target: c.node(path) }, direction);
    }
}

/// A button that the builder has not composed takes no part in a tick: the
/// pointer and the clock leave it as it is, and it hands out nothing.
pub proof fn lemma_unbuilt_button_is_absent(
    m: UiModel,
    events: Seq<Pointer>,
    direction: Direction,
    elapsed_micros: nat,
    i: int,
)
    requires
        0 <= i < m.buttons.len(),
        m.buttons[i].composition is None,
    ensures
        m.hovered(events, direction).buttons[i] == m.buttons[i],
        m.advanced(elapsed_micros).buttons[i] == m.buttons[i],
        m.buttons[i].output(elapsed_micros, m.palette).repaint is None,
        m.buttons[i].output(elapsed_micros, m.palette).cursor is None,
{
}

/// In every tick there are two colour changes to each layout change, at most
/// one layout change and one pointer-icon request for each button.
pub proof fn lemma_frame_shape(m: UiModel, n: nat, elapsed_micros: nat)
    ensures
        m.frame_upto(n, elapsed_micros).set_color.len() == 2 * m.frame_upto(
            n,
            elapsed_micros,
        ).set_layout.len(),
        m.frame_upto(n, elapsed_micros).set_layout.len() <= n,
        m.frame_upto(n, elapsed_micros).cursor.len() <= n,
    decreases n,
{
    if n > 0 {
        lemma_frame_shape(m, (n - 1) as nat, elapsed_micros);
    }
}

/// A tick in which no button's progress moves hands out no colour change and
/// no layout change.
pub proof fn lemma_still_frame_is_silent(m: UiModel, n: nat, elapsed_micros: nat)
    requires
        n <= m.buttons.len(),
        forall|i: int|
            0 <= i < n ==> (#[trigger] m.buttons[i]).advanced(elapsed_micros) == m.buttons[i],
    ensures
        m.frame_upto(n, elapsed_micros).set_color.len() == 0,
        m.frame_upto(n, elapsed_micros).set_layout.len() == 0,
    decreases n,
{
    if n > 0 {
        lemma_still_frame_is_silent(m, (n - 1) as nat, elapsed_micros);
        assert(m.buttons[n - 1].advanced(elapsed_micros) == m.buttons[n - 1]);
    }
}

} // verus!
