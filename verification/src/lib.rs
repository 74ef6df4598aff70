//! A host process that owns a mutable scene store and repeatedly hands
//! temporary, exclusive access to it to a separately built logic module,
//! which may be rebuilt and swapped in while the host keeps running.
//!
//! The crate verifies the cross-boundary machinery of such a host:
//! the fixed-layout types that cross the module boundary, the
//! lend/reclaim ownership-transfer protocol for the scene store, the
//! import bridge the module calls back through, the asset-handle
//! registry, the module loader's state machine, and the
//! rebuild-watch/reload control loop.  The demo game driven through the
//! import bridge is verified as well.

pub mod abi;
pub mod bits;
pub mod frame;
pub mod game;
pub mod imports;
pub mod lend;
pub mod loader;
pub mod registry;
pub mod reload;
pub mod store;
pub mod texture;

use vstd::prelude::*;

verus! {

/// How many playable cells the grid has from the bottom to the top and
/// from the left to the right.
pub const CELLS: u32 = 20;

/// Returns the default value of any type that has one.
pub fn def<T: Default>() -> (r: T)
    ensures
        call_ensures(T::default, (), r),
{
    Default::default()
}

} // verus!
