//! The leaderboard unit: a timer started by name, stopped into a persisted
//! entry with a fresh identifier, and entries deleted by identifier.

use vstd::prelude::*;
use crate::bus::{bus_clone, bus_send, bus_subscribe, bus_try_recv};
use crate::drivers::MAX_DRAIN_PER_TICK;
use crate::messages::{
    LeaderboardEntry, VrMessage, settings_eq_except_leaderboard,
};
use crate::unit::{GameCoreUnit, UnitError, UnitTick};

verus! {

/// The largest identifier among the entries, or zero of none.
pub open spec fn max_id(s: Seq<LeaderboardEntry>) -> int
    decreases s.len(),
{
    if s.len() == 0 {
        0
    } else {
        let m = max_id(s.drop_last());
        if s.last().id > m {
            s.last().id as int
        } else {
            m
        }
    }
}

/// The identifier a fresh entry receives: one above the largest in use,
/// held at the type's ceiling.
pub open spec fn next_id_spec(s: Seq<LeaderboardEntry>) -> int {
    if max_id(s) < u32::MAX {
        max_id(s) + 1
    } else {
        u32::MAX as int
    }
}

/// Compute the identifier for the next entry.
pub fn next_id(entries: &Vec<LeaderboardEntry>) -> (r: u32)
    ensures
        r == next_id_spec(entries@),
{
    let mut m: u32 = 0;
    let mut i: usize = 0;
    while i < entries.len()
        invariant
            i <= entries@.len(),
            m == max_id(entries@.take(i as int)),
        decreases entries@.len() - i,
    {
        proof {
            assert(entries@.take(i as int + 1).drop_last() =~= entries@.take(i as int));
            assert(entries@.take(i as int + 1).last() == entries@[i as int]);
        }
        if entries[i].id > m {
            m = entries[i].id;
        }
        i += 1;
    }
    proof {
        assert(entries@.take(entries@.len() as int) =~= entries@);
    }
    if m < u32::MAX {
        m + 1
    } else {
        u32::MAX
    }
}

/// An exact copy of one entry.
fn clone_entry(e: &LeaderboardEntry) -> (r: LeaderboardEntry)
    ensures
        r == *e,
{
    LeaderboardEntry { name: e.name.clone(), time_ms: e.time_ms, id: e.id }
}

/// A running timer: who started it and when.
pub struct LeaderboardUser {
    pub name: String,
    pub start_ms: u64,
}

/// The leaderboard unit.
pub struct Leaderboard {
    bus: pub_sub::PubSub<VrMessage>,
    subscription: pub_sub::Subscription<VrMessage>,
    start: Option<LeaderboardUser>,
}

impl Leaderboard {
    /// Whether a timer is running, and for whom.
    pub closed spec fn start_view(&self) -> Option<LeaderboardUser> {
        self.start
    }

    pub fn new(bus: &pub_sub::PubSub<VrMessage>) -> (r: Leaderboard)
        ensures
            r.wf(),
            r.start_view() is None,
    {
        Leaderboard { bus: bus_clone(bus), subscription: bus_subscribe(bus), start: None }
    }

    /// Apply one bus message: a timer start arms the timer; a timer end
    /// turns it into a persisted entry with a fresh identifier and reports
    /// it for publishing; a delete command drops the entry with that
    /// identifier.
    pub fn handle_message(&mut self, m: &VrMessage, tick: &mut UnitTick) -> (r: Option<VrMessage>)
        ensures
            final(tick).now_ms == old(tick).now_ms,
            match m {
                VrMessage::TimerStart { name } => {
                    &&& final(self).start_view() matches Some(u) && u.name@ == name@ && u.start_ms
                        == old(tick).now_ms
                    &&& final(tick).config == old(tick).config
                    &&& final(tick).config_dirty == old(tick).config_dirty
                    &&& r is None
                },
                VrMessage::TimerEnd {  } => {
                    match old(self).start_view() {
                        Option::Some(u) => {
                            let lb = final(tick).config.leaderboard@;
                            let entry = lb.last();
                            &&& final(self).start_view() is None
                            &&& settings_eq_except_leaderboard(
                                final(tick).config,
                                old(tick).config,
                            )
                            &&& lb.len() == old(tick).config.leaderboard@.len() + 1
                            &&& lb.take(lb.len() - 1) == old(tick).config.leaderboard@
                            &&& entry.name@ == u.name@
                            &&& entry.time_ms == (if old(tick).now_ms >= u.start_ms {
                                old(tick).now_ms - u.start_ms
                            } else {
                                0
                            })
                            &&& entry.id == next_id_spec(old(tick).config.leaderboard@)
                            &&& final(tick).config_dirty
                            &&& r == Some(VrMessage::PushTimerEntry { entry })
                        },
                        Option::None => {
                            &&& final(self).start_view() is None
                            &&& final(tick).config == old(tick).config
                            &&& final(tick).config_dirty == old(tick).config_dirty
                            &&& r is None
                        },
                    }
                },
                VrMessage::DeleteTimerEntry { id } => {
                    &&& final(self).start_view() == old(self).start_view()
                    &&& settings_eq_except_leaderboard(final(tick).config, old(tick).config)
                    &&& final(tick).config.leaderboard@ == old(
                        tick,
                    ).config.leaderboard@.filter(|e: LeaderboardEntry| e.id != id)
                    &&& final(tick).config_dirty
                    &&& r is None
                },
                _ => final(self).start_view() == old(self).start_view() && final(tick).config
                    == old(tick).config && final(tick).config_dirty == old(tick).config_dirty && r
                    is None,
            },
    {
        match m {
            VrMessage::TimerStart { name } => {
                self.start = Some(
                    LeaderboardUser { name: name.clone(), start_ms: tick.now_ms },
                );
                None
            },
            VrMessage::TimerEnd {  } => {
                let user = self.start.take();
                match user {
                    Some(u) => {
                        let id = next_id(&tick.config.leaderboard);
                        let time_ms: u64 = if tick.now_ms >= u.start_ms {
                            tick.now_ms - u.start_ms
                        } else {
                            0
                        };
                        let entry = LeaderboardEntry { name: u.name, time_ms, id };
                        let copy = clone_entry(&entry);
                        tick.config.leaderboard.push(entry);
                        tick.config_dirty = true;
                        proof {
                            assert(tick.config.leaderboard@.take(
                                tick.config.leaderboard@.len() - 1,
                            ) =~= old(tick).config.leaderboard@);
                        }
                        Some(VrMessage::PushTimerEntry { entry: copy })
                    },
                    None => None,
                }
            },
            VrMessage::DeleteTimerEntry { id } => {
                let mut kept: Vec<LeaderboardEntry> = Vec::new();
                let mut i: usize = 0;
                while i < tick.config.leaderboard.len()
                    invariant
                        i <= tick.config.leaderboard@.len(),
                        tick.config.leaderboard@ == old(tick).config.leaderboard@,
                        kept@ == tick.config.leaderboard@.take(i as int).filter(
                            |e: LeaderboardEntry| e.id != id,
                        ),
                    decreases tick.config.leaderboard@.len() - i,
                {
                    proof {
                        reveal_with_fuel(Seq::<LeaderboardEntry>::filter, 2);
                        assert(tick.config.leaderboard@.take(i as int + 1).drop_last()
                            =~= tick.config.leaderboard@.take(i as int));
                        assert(tick.config.leaderboard@.take(i as int + 1).last()
                            == tick.config.leaderboard@[i as int]);
                    }
                    let e = &tick.config.leaderboard[i];
                    if e.id != *id {
                        kept.push(clone_entry(e));
                    }
                    i += 1;
                }
                proof {
                    assert(tick.config.leaderboard@.take(tick.config.leaderboard@.len() as int)
                        =~= tick.config.leaderboard@);
                }
                tick.config.leaderboard = kept;
                tick.config_dirty = true;
                None
            },
            _ => None,
        }
    }
}

impl GameCoreUnit for Leaderboard {
    /// The unit keeps no invariant beyond its fields' types.
    closed spec fn wf(&self) -> bool {
        true
    }

    /// Drain pending bus messages; a finished timer is published
    /// best-effort, as a lost publish only delays the mirror.
    fn process(&mut self, tick: &mut UnitTick) -> (r: Result<(), UnitError>)
        ensures
            final(tick).now_ms == old(tick).now_ms,
            r == Ok::<(), UnitError>(()),
    {
        let mut k: u64 = 0;
        while k < MAX_DRAIN_PER_TICK
            invariant
                tick.now_ms == old(tick).now_ms,
            decreases MAX_DRAIN_PER_TICK - k,
        {
            match bus_try_recv(&self.subscription) {
                Some(m) => {
                    match self.handle_message(&m, tick) {
                        Some(msg) => {
                            let _ = bus_send(&self.bus, msg);
                        },
                        None => {},
                    }
                },
                None => {
                    break ;
                },
            }
            k += 1;
        }
        Ok(())
    }
}

} // verus!
