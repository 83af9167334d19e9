//! The order in which the three steps run within one tick.

use vstd::prelude::*;
use crate::composition::AssetCache;
use crate::control::Direction;
use crate::ui::{BuildReport, ButtonUi, FrameOutput, Pointer, UiModel};

verus! {

/// Runs the steps of a tick in their fixed order.
#[derive(Clone, Copy, Debug, Default, PartialEq, Eq)]
pub struct MainButtonPlugin;

/// What one tick has produced.
#[derive(Debug, Clone, PartialEq)]
pub struct Tick {
    /// What the builder did.
    pub built: BuildReport,
    /// What the stepper handed out.
    pub frame: FrameOutput,
}

impl MainButtonPlugin {
    /// The interface as the stepper finds it in a tick: the builder has run,
    /// then the pointer-enter events were applied, then the pointer-leave
    /// events. Where one tick brings both for the same button, the leave
    /// holds.
    pub open spec fn before_step(
        ui: UiModel,
        assets: AssetCache,
        entered: Seq<Pointer>,
        left: Seq<Pointer>,
    ) -> UiModel {
        ui.built(assets).ui.hovered(entered, Direction::Forward).hovered(left, Direction::Backward)
    }

    /// One tick: the builder, then the hover translator on both queues, then
    /// the stepper. The stepper so sees the directions that this tick's
    /// events have set, and both queues are empty afterwards.
    pub fn tick(
        &self,
        ui: &mut ButtonUi,
        assets: &AssetCache,
        entered: &mut Vec<Pointer>,
        left: &mut Vec<Pointer>,
        elapsed_micros: u64,
    ) -> (t: Tick)
        requires
            old(ui).wf(),
        ensures
            final(ui).wf(),
            final(ui)@ == Self::before_step(old(ui)@, *assets, old(entered)@, old(left)@).advanced(
                elapsed_micros as nat,
            ),
            t.frame@ == Self::before_step(old(ui)@, *assets, old(entered)@, old(left)@).frame(
                elapsed_micros as nat,
            ),
            t.built.spawned@ == old(ui)@.built(*assets).spawned,
            t.built.failed@ == old(ui)@.built(*assets).failed,
            final(entered)@.len() == 0,
            final(left)@.len() == 0,
    {
        let built = ui.build_system(assets);
        ui.pointer_enter_system(entered);
        ui.pointer_leave_system(left);
        let frame = ui.update_system(elapsed_micros);
        Tick { built, frame }
    }
}

} // verus!
