//! The module loader's state machine.
//!
//! Loading resolves the compiled artifact's export table and produces a
//! live module record; unloading frees it.  Load and unload are atomic
//! from the controller's point of view: no transient state is
//! observable, and a failure of either is fatal to the host, so the
//! machine only ever sees the two stable states.  `setup` runs exactly
//! once per load; the flag below records whether it has run for the
//! currently loaded module.

use vstd::prelude::*;

verus! {

/// Whether a module is live, and if so whether its `setup` export has
/// already run.
#[derive(Clone, Copy, PartialEq, Eq, Debug, Structural)]
pub enum ModuleState {
    /// No module is loaded; frames perform no export calls.
    Unloaded,
    /// A module is loaded and its export table resolved.
    Loaded {
        /// Whether `setup` has run for this load.
        setup_called: bool,
    },
}

/// What one frame must dispatch to the module: `setup` first if it has
/// not run for this load, then `update`.
#[derive(Clone, Copy, PartialEq, Eq, Debug, Structural)]
pub struct FrameDispatch {
    /// Run the `setup` export this frame, before `update`.
    pub run_setup: bool,
    /// Run the `update` export this frame.
    pub run_update: bool,
}

impl ModuleState {
    /// A module is live.
    pub open spec fn loaded(self) -> bool {
        self is Loaded
    }

    /// `setup` has run for the current load.
    pub open spec fn setup_called(self) -> bool {
        self == (ModuleState::Loaded { setup_called: true })
    }

    /// Fresh host state: nothing loaded yet.
    pub fn new() -> (r: ModuleState)
        ensures
            r == ModuleState::Unloaded,
    {
        ModuleState::Unloaded
    }

    /// A successful load: the new module's `setup` has not run yet.
    /// The controller unloads first, so nothing may be live here.
    pub fn load(&mut self)
        requires
            *old(self) == ModuleState::Unloaded,
        ensures
            *final(self) == (ModuleState::Loaded { setup_called: false }),
    {
        *self = ModuleState::Loaded { setup_called: false };
    }

    /// Unloads the live module if any; unloading with nothing live is a
    /// silent no-op.
    pub fn unload(&mut self)
        ensures
            *final(self) == ModuleState::Unloaded,
    {
        *self = ModuleState::Unloaded;
    }

    /// What the given pre-state dispatches in one frame, and the state
    /// after it.
    pub open spec fn dispatch_step(pre: ModuleState, post: ModuleState, r: FrameDispatch) -> bool {
        if !pre.loaded() {
            post == pre && r == (FrameDispatch { run_setup: false, run_update: false })
        } else if !pre.setup_called() {
            post == (ModuleState::Loaded { setup_called: true }) && r == (FrameDispatch {
                run_setup: true,
                run_update: true,
            })
        } else {
            post == pre && r == (FrameDispatch { run_setup: false, run_update: true })
        }
    }

    /// Decides the export calls of one frame.  With no module loaded
    /// the frame performs none; on the first frame after a load,
    /// `setup` is dispatched before `update` and marked as run.
    pub fn frame_dispatch(&mut self) -> (r: FrameDispatch)
        ensures
            ModuleState::dispatch_step(*old(self), *final(self), r),
    {
        match *self {
            ModuleState::Unloaded => FrameDispatch { run_setup: false, run_update: false },
            ModuleState::Loaded { setup_called } => {
                if !setup_called {
                    *self = ModuleState::Loaded { setup_called: true };
                    FrameDispatch { run_setup: true, run_update: true }
                } else {
                    FrameDispatch { run_setup: false, run_update: true }
                }
            },
        }
    }
}

/// After a fresh load, `setup` is dispatched exactly once: the first
/// frame runs it (before that frame's `update`), and every later frame
/// of the same load dispatches `update` alone.
pub proof fn lemma_setup_runs_once(
    m0: ModuleState,
    m1: ModuleState,
    r1: FrameDispatch,
    m2: ModuleState,
    r2: FrameDispatch,
)
    requires
        m0 == (ModuleState::Loaded { setup_called: false }),
        ModuleState::dispatch_step(m0, m1, r1),
        ModuleState::dispatch_step(m1, m2, r2),
    ensures
        r1.run_setup && r1.run_update,
        !r2.run_setup && r2.run_update,
        m2 == m1,
{
}

} // verus!
