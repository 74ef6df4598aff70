//! The per-frame driver: what the host's main loop does once per
//! frame.
//!
//! Reload handling comes first, then — only if a module is loaded —
//! the export dispatch: the scene store is lent, `setup` runs if it
//! has not run for this load, `update` runs, and the store is
//! reclaimed.  With no module loaded the frame performs no export
//! calls and touches nothing.

use vstd::prelude::*;

use crate::game::{setup, update, State};
use crate::imports::Host;
use crate::lend::ProtocolViolation;
use crate::loader::ModuleState;
use crate::reload::{handle_message, LiveReloadMessage};

verus! {

/// Runs one frame: drains the watcher's messages, hot-swaps the module
/// as they say, and dispatches the export calls inside one
/// lend/reclaim bracket.  The game state lives in `game`: a fresh one
/// replaces it when `setup` runs, and it is discarded on any reload.
pub fn run_frame(
    host: &mut Host,
    module: &mut ModuleState,
    game: &mut Option<State>,
    messages: &Vec<LiveReloadMessage>,
    elapsed_ms: u64,
) -> (r: Result<(), ProtocolViolation>)
    requires
        old(host).wf(),
        !old(host).lent(),
    ensures
        final(host).wf(),
        !final(host).lent(),
        *old(module) == ModuleState::Unloaded && messages@.len() == 0 ==> *final(host) == *old(
            host,
        ) && *final(module) == *old(module),
        r is Ok && messages@.len() > 0 && messages@.last() == LiveReloadMessage::Success
            ==> *final(module) == (ModuleState::Loaded { setup_called: true }) && (*final(game)) is Some,
        messages@.len() > 0 && messages@.last() == LiveReloadMessage::BuildFailure ==> *final(module) == ModuleState::Unloaded && (*final(game)) is None,
{
    let n = messages.len();
    let mut i: usize = 0;
    while i < n
        invariant
            n == messages@.len(),
            i <= n,
            host.wf(),
            !host.lent(),
            n == 0 ==> *host == *old(host) && *module == *old(module),
            i > 0 && messages@[i - 1] == LiveReloadMessage::Success ==> *module == (
            ModuleState::Loaded { setup_called: false }) && *game is None,
            i > 0 && messages@[i - 1] == LiveReloadMessage::BuildFailure ==> *module
                == ModuleState::Unloaded && *game is None,
        decreases n - i,
    {
        let msg = messages[i];
        handle_message(msg, module, host);
        *game = None;
        i = i + 1;
    }
    let dispatch = module.frame_dispatch();
    if !dispatch.run_setup && !dispatch.run_update {
        return Ok(());
    }
    match host.lend() {
        Ok(()) => {},
        Err(v) => {
            // no lend was in progress, so `lend`'s contract rules this out
            proof {
                assert(false);
            }
            return Err(v);
        },
    }
    if dispatch.run_setup {
        match setup(host) {
            Ok(fresh) => {
                *game = Some(fresh);
            },
            Err(v) => {
                let _ = host.reclaim();
                return Err(v);
            },
        }
    }
    let mut current: Option<State> = None;
    core::mem::swap(&mut current, game);
    match current {
        None => {},
        Some(mut st) => {
            match update(&mut st, host, elapsed_ms) {
                Ok(_) => {},
                Err(v) => {
                    *game = Some(st);
                    let _ = host.reclaim();
                    return Err(v);
                },
            }
            *game = Some(st);
        },
    }
    match host.reclaim() {
        Ok(()) => Ok(()),
        Err(v) => {
            // the bracket is open here, so `reclaim`'s contract rules this out
            proof {
                assert(false);
            }
            Err(v)
        },
    }
}

} // verus!
