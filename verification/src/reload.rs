//! The rebuild watcher's decision logic and the reload controller.
//!
//! The watcher runs on its own schedule: it invokes the build tool,
//! classifies the outcome from the exit status and the tool's log, and
//! sends at most one message per observed state change, so a failing
//! streak is reported once rather than every poll.  The controller
//! drains those messages once per frame, before any export dispatch,
//! and hot-swaps the module: a successful rebuild is a hard reset of
//! all module-owned state.

use vstd::prelude::*;

use crate::abi::RawEntity;
use crate::imports::{clear_world, Host};
use crate::loader::ModuleState;

verus! {

/// One observation of the build tool.
#[derive(Clone, Copy, PartialEq, Eq, Debug, Structural)]
pub enum BuildOutcome {
    /// The build succeeded and recompiled something.
    RebuildSucceeded,
    /// The build failed.
    BuildFailed,
    /// The build succeeded but nothing changed.
    NoChange,
}

/// What the watcher sends the controller.
#[derive(Clone, Copy, PartialEq, Eq, Debug, Structural)]
pub enum LiveReloadMessage {
    /// A fresh artifact is ready: reload it.
    Success,
    /// The build broke: unload and idle until it is fixed.
    BuildFailure,
}

/// The marker the build tool prints when it recompiles; its presence in
/// the log is what distinguishes a rebuild from a no-op build.
pub open spec fn marker() -> Seq<u8> {
    seq![67u8, 111u8, 109u8, 112u8, 105u8, 108u8, 105u8, 110u8, 103u8]
}

/// The marker matches the log at position `i`.
pub open spec fn marker_at(log: Seq<u8>, i: int) -> bool {
    forall|j: int| 0 <= j < marker().len() ==> log[i + j] == marker()[j]
}

/// The log mentions the recompiling marker somewhere.
pub open spec fn contains_marker(log: Seq<u8>) -> bool {
    exists|i: int| 0 <= i && i + marker().len() <= log.len() && marker_at(log, i)
}

/// The recompiling marker, as bytes.
fn marker_bytes() -> (r: Vec<u8>)
    ensures
        r@ == marker(),
{
    let r: Vec<u8> = vec![67u8, 111u8, 109u8, 112u8, 105u8, 108u8, 105u8, 110u8, 103u8];
    proof {
        assert(r@ =~= marker());
    }
    r
}

/// Whether the build log mentions the recompiling marker.
pub fn log_mentions_recompiling(log: &[u8]) -> (r: bool)
    ensures
        r == contains_marker(log@),
{
    let m = marker_bytes();
    let mlen = m.len();
    let n = log.len();
    if n < mlen {
        return false;
    }
    let mut i: usize = 0;
    while i <= n - mlen
        invariant
            m@ == marker(),
            mlen == marker().len(),
            n == log@.len(),
            mlen <= n,
            i <= n - mlen + 1,
            forall|k: int| 0 <= k < i ==> !marker_at(log@, k),
        decreases n - i,
    {
        let mut j: usize = 0;
        let mut matches_here = true;
        while j < mlen
            invariant
                m@ == marker(),
                mlen == marker().len(),
                n == log@.len(),
                i + mlen <= n,
                j <= mlen,
                matches_here == (forall|k: int| 0 <= k < j ==> log@[i + k] == marker()[k]),
            decreases mlen - j,
        {
            if log[i + j] != m[j] {
                matches_here = false;
                proof {
                    assert(log@[i + j] != marker()[j as int]);
                }
                j = mlen;
            } else {
                proof {
                    assert(log@[i + j] == marker()[j as int]);
                }
                j = j + 1;
            }
        }
        if matches_here {
            proof {
                assert(marker_at(log@, i as int));
            }
            return true;
        }
        i = i + 1;
    }
    proof {
        assert forall|k: int| 0 <= k && k + marker().len() <= log@.len() implies !marker_at(
            log@,
            k,
        ) by {
            assert(k < n - mlen + 1);
        }
    }
    false
}

/// Maps one invocation of the build tool to an outcome: a failing exit
/// status is a failed build; a clean one is a rebuild exactly when the
/// log mentions the recompiling marker, and no change otherwise.
pub fn classify_build_output(exit_ok: bool, log: &[u8]) -> (r: BuildOutcome)
    ensures
        !exit_ok ==> r == BuildOutcome::BuildFailed,
        exit_ok && contains_marker(log@) ==> r == BuildOutcome::RebuildSucceeded,
        exit_ok && !contains_marker(log@) ==> r == BuildOutcome::NoChange,
{
    if !exit_ok {
        return BuildOutcome::BuildFailed;
    }
    if log_mentions_recompiling(log) {
        BuildOutcome::RebuildSucceeded
    } else {
        BuildOutcome::NoChange
    }
}

/// The watcher's only memory between polls: whether the previous
/// iteration's build failed, so a failing streak is reported once.
#[derive(Clone, Copy, PartialEq, Eq, Debug, Structural)]
pub struct WatcherState {
    /// The build failed in the previous iteration.
    pub build_failed_in_prev_iteration: bool,
}

impl WatcherState {
    /// What one observation does to the watcher and what it sends.
    pub open spec fn observe_step(
        pre: WatcherState,
        outcome: BuildOutcome,
        post: WatcherState,
        r: Option<LiveReloadMessage>,
    ) -> bool {
        match outcome {
            BuildOutcome::RebuildSucceeded => {
                &&& post.build_failed_in_prev_iteration == false
                &&& r == Some(LiveReloadMessage::Success)
            },
            BuildOutcome::BuildFailed => {
                &&& post.build_failed_in_prev_iteration == true
                &&& r == (if pre.build_failed_in_prev_iteration {
                    None
                } else {
                    Some(LiveReloadMessage::BuildFailure)
                })
            },
            BuildOutcome::NoChange => {
                &&& post == pre
                &&& r is None
            },
        }
    }

    /// A fresh watcher: no failing streak yet.
    pub fn new() -> (r: WatcherState)
        ensures
            r.build_failed_in_prev_iteration == false,
    {
        WatcherState { build_failed_in_prev_iteration: false }
    }

    /// Digests one build outcome and returns the message to send, if
    /// any: every success is reported; a failure is reported once per
    /// consecutive failing streak; an unchanged build is silent.
    pub fn observe(&mut self, outcome: BuildOutcome) -> (r: Option<LiveReloadMessage>)
        ensures
            WatcherState::observe_step(*old(self), outcome, *final(self), r),
    {
        match outcome {
            BuildOutcome::RebuildSucceeded => {
                self.build_failed_in_prev_iteration = false;
                Some(LiveReloadMessage::Success)
            },
            BuildOutcome::BuildFailed => {
                if self.build_failed_in_prev_iteration {
                    None
                } else {
                    self.build_failed_in_prev_iteration = true;
                    Some(LiveReloadMessage::BuildFailure)
                }
            },
            BuildOutcome::NoChange => None,
        }
    }
}

/// Build-failure idempotence: from a state with no failing streak, two
/// consecutive failed builds produce exactly one outward notification —
/// the first observation sends it, the second is silent — and the
/// silence lasts until an intervening success resets the streak.
pub proof fn lemma_build_failure_reported_once(
    s0: WatcherState,
    s1: WatcherState,
    r1: Option<LiveReloadMessage>,
    s2: WatcherState,
    r2: Option<LiveReloadMessage>,
)
    requires
        !s0.build_failed_in_prev_iteration,
        WatcherState::observe_step(s0, BuildOutcome::BuildFailed, s1, r1),
        WatcherState::observe_step(s1, BuildOutcome::BuildFailed, s2, r2),
    ensures
        r1 == Some(LiveReloadMessage::BuildFailure),
        r2 is None,
        s2 == s1,
{
}

/// Handles one watcher message, before any export dispatch of the same
/// frame.  On `Success` the current module is unloaded, the whole scene
/// store is cleared (every registered entity despawned, the asset
/// registry wiped), the new artifact is loaded and its setup is
/// pending.  On `BuildFailure` the module is unloaded and the host
/// idles until the next success.  No lend may be in progress.
pub fn handle_message(msg: LiveReloadMessage, module: &mut ModuleState, host: &mut Host)
    requires
        old(host).wf(),
        !old(host).lent(),
    ensures
        final(host).wf(),
        !final(host).lent(),
        msg == LiveReloadMessage::Success ==> {
            &&& *final(module) == (ModuleState::Loaded { setup_called: false })
            &&& final(host).store().registered_ids() =~= Set::<RawEntity>::empty()
            &&& final(host).registry.entries@.len() == 0
            &&& final(host).registry.next_key == old(host).registry.next_key
            &&& final(host).store().next_entity == old(host).store().next_entity
            &&& forall|id: RawEntity|
                final(host).store().contains_id(id) == (old(host).store().contains_id(id)
                    && !old(host).store().record_of(id).registered)
        },
        msg == LiveReloadMessage::BuildFailure ==> {
            &&& *final(module) == ModuleState::Unloaded
            &&& *final(host) == *old(host)
        },
{
    match msg {
        LiveReloadMessage::Success => {
            module.unload();
            clear_world(host);
            module.load();
        },
        LiveReloadMessage::BuildFailure => {
            module.unload();
        },
    }
}

} // verus!
