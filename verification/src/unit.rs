//! What every bus-driven game-logic unit has in common: the per-tick
//! processing contract and the context one tick exchanges with the caller.

use vstd::prelude::*;
use crate::messages::RenderSettingsData;

verus! {

/// Why one unit's tick failed.
#[derive(Clone, Copy, Debug, PartialEq, Eq, Structural)]
pub enum UnitError {
    /// A publish onto the bus was not accepted.
    Bus,
}

/// What one unit tick exchanges with the world around it.
pub struct UnitTick {
    /// Milliseconds of elapsed process time.
    pub now_ms: u64,
    /// The persisted settings as currently on disk.
    pub config: RenderSettingsData,
    /// Set by a unit when `config` changed and must be persisted.
    pub config_dirty: bool,
}

/// A bus-driven game-logic unit, exposing a uniform per-tick operation.
pub trait GameCoreUnit {
    /// The internal invariant the unit's state keeps between ticks.
    spec fn wf(&self) -> bool;

    fn process(&mut self, tick: &mut UnitTick) -> (r: Result<(), UnitError>)
        requires
            old(self).wf(),
        ensures
            final(self).wf(),
    ;
}

} // verus!
