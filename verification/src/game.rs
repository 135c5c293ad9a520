//! The game-logic units and their registration: what runs in each unit
//! loop, built once from the bus.

use vstd::prelude::*;
use crate::leaderboard::Leaderboard;
use crate::messages::VrMessage;
use crate::pinentry::PinEntry;
use crate::unit::{GameCoreUnit, UnitError, UnitTick};

verus! {

/// The closed set of game-logic units.
pub enum GameUnit {
    Pin(PinEntry),
    Board(Leaderboard),
}

impl GameCoreUnit for GameUnit {
    closed spec fn wf(&self) -> bool {
        match self {
            GameUnit::Pin(u) => u.wf(),
            GameUnit::Board(u) => u.wf(),
        }
    }

    /// Dispatch one tick to the unit; no unit touches the tick's clock.
    fn process(&mut self, tick: &mut UnitTick) -> (r: Result<(), UnitError>)
        ensures
            final(tick).now_ms == old(tick).now_ms,
    {
        match self {
            GameUnit::Pin(u) => u.process(tick),
            GameUnit::Board(u) => u.process(tick),
        }
    }
}

/// The units to run, gathered at startup.
pub struct Units {
    units: Vec<GameUnit>,
}

impl Units {
    pub closed spec fn view(&self) -> Seq<GameUnit> {
        self.units@
    }

    /// Build every registered unit against the bus: one PIN entry.
    pub fn from_bus(bus: &pub_sub::PubSub<VrMessage>) -> (r: Units)
        ensures
            r.view().len() == 1,
            r.view()[0] is Pin,
            forall|i: int| 0 <= i < r.view().len() ==> (#[trigger] r.view()[i]).wf(),
    {
        let mut units: Vec<GameUnit> = Vec::new();
        units.push(GameUnit::Pin(PinEntry::new(bus)));
        Units { units }
    }

    /// Hand the built units out to whoever runs their loops.
    pub fn finish(self) -> (r: Vec<GameUnit>)
        ensures
            r@ == self.view(),
    {
        self.units
    }
}

} // verus!
