//! A small elapsed-time profiler: remembers when it was created and when
//! the last lap was reported, and renders the elapsed times as text for
//! whoever logs it.

use vstd::prelude::*;
use crate::decimal::{dec_digits, u64_string};

verus! {

/// Timestamps in milliseconds; disabled when created with `enable` false.
pub struct Profiler {
    pub start: Option<u64>,
    pub lap: Option<u64>,
}

/// The report one lap renders: the title in brackets, the milliseconds
/// since the start, and the milliseconds since the previous lap.
pub open spec fn lap_report(title: Seq<char>, since_start: int, since_lap: int) -> Seq<char> {
    "["@ + title + "] "@ + dec_digits(since_start) + "ms (lap: "@ + dec_digits(since_lap)
        + "ms)"@
}

impl Profiler {
    pub fn new(enable: bool, now_ms: u64) -> (r: Profiler)
        ensures
            r.start == (if enable {
                Some(now_ms)
            } else {
                Option::<u64>::None
            }),
            r.lap == r.start,
    {
        Profiler {
            start: if enable {
                Some(now_ms)
            } else {
                None
            },
            lap: if enable {
                Some(now_ms)
            } else {
                None
            },
        }
    }

    /// Render the elapsed times when enabled, and start the next lap; a
    /// disabled profiler stays silent.
    pub fn print_elapsed(&mut self, title: &str, now_ms: u64) -> (r: Option<String>)
        ensures
            match old(self).start {
                Option::Some(start) => {
                    &&& final(self).start == old(self).start
                    &&& final(self).lap == Some(now_ms)
                    &&& r matches Some(text) && text@ == lap_report(
                        title@,
                        if now_ms >= start {
                            now_ms - start
                        } else {
                            0
                        },
                        match old(self).lap {
                            Option::Some(lap) => if now_ms >= lap {
                                now_ms - lap
                            } else {
                                0
                            },
                            Option::None => 0,
                        },
                    )
                },
                Option::None => *final(self) == *old(self) && r is None,
            },
    {
        match self.start {
            Some(start) => {
                let since_start: u64 = if now_ms >= start {
                    now_ms - start
                } else {
                    0
                };
                let since_lap: u64 = match self.lap {
                    Some(lap) => if now_ms >= lap {
                        now_ms - lap
                    } else {
                        0
                    },
                    None => 0,
                };
                self.lap = Some(now_ms);
                proof {
                    reveal_strlit("[");
                    reveal_strlit("] ");
                    reveal_strlit("ms (lap: ");
                    reveal_strlit("ms)");
                }
                let mut text = String::from_str("[");
                text.append(title);
                text.append("] ");
                text.append(u64_string(since_start).as_str());
                text.append("ms (lap: ");
                text.append(u64_string(since_lap).as_str());
                text.append("ms)");
                Some(text)
            },
            None => None,
        }
    }
}

} // verus!
