//! Conversions between Unix timestamps and chain slot numbers.
//!
//! Chain slot behavior is a bit unintuitive, particularly for chains that
//! have a merge or missed slots at the start of the chain. Each header
//! occupies a slot, but not all slots contain headers, and headers carry the
//! timestamp at the END of their slot.
//!
//! A chain starts with a first header, which carries a timestamp (the
//! `start_timestamp`) and occupies an initial slot (the `slot_offset`). The
//! `start_timestamp` is therefore the end of the initial slot and the
//! beginning of the next one. Normalizing a slot number to
//! `n = slot - slot_offset`, the slots after the initial header have `n >= 1`
//! and
//!
//! - `slot_start(n) = (n - 1) * slot_duration + start_timestamp`
//! - `slot_end(n)   = n * slot_duration + start_timestamp`
//!
//! each slot covering the half-open window `slot_start(n)..slot_end(n)`. The
//! slot containing a timestamp `t >= start_timestamp` is
//! `slot_offset + (t - start_timestamp) / slot_duration + 1`; the `+ 1`
//! exists because the initial slot ENDS at `start_timestamp`, so
//! `start_timestamp` itself already lies in slot `slot_offset + 1`.

use vstd::arithmetic::div_mod::{
    lemma_div_pos_is_pos, lemma_fundamental_div_mod, lemma_fundamental_div_mod_converse_mod,
    lemma_mod_bound, lemma_mod_decreases, lemma_mod_multiples_basic,
};
use vstd::prelude::*;

use crate::clock::unix_now;

verus! {

/// A slot calculator: pure arithmetic converting between timestamps and slot
/// numbers and windows, parameterized by the chain's start timestamp, slot
/// offset, and slot duration.
///
/// Slots are indices and use `usize`; timestamps are Unix epoch seconds and
/// use `u64`.
#[derive(Debug, Clone, Copy, PartialEq, Eq, Structural)]
pub struct SlotCalculator {
    /// The timestamp of the header that starts the chain. That header
    /// occupies the slot numbered `slot_offset`, and `start_timestamp` is the
    /// END of that slot.
    pub start_timestamp: u64,

    /// The number of the slot containing the header that carries
    /// `start_timestamp`. Non-zero for chains with a merge or with missed
    /// slots at the start of the chain.
    pub slot_offset: usize,

    /// The slot duration in seconds.
    pub slot_duration: u64,
}

impl SlotCalculator {
    /// Well-formedness: slots have positive width.
    pub open spec fn wf(&self) -> bool {
        self.slot_duration > 0
    }

    /// The slot number containing timestamp `t`, as unbounded math.
    /// Meaningful only for `t >= self.start_timestamp`.
    pub open spec fn slot_of(&self, t: int) -> int
        recommends
            self.wf(),
            t >= self.start_timestamp,
    {
        self.slot_offset + (t - self.start_timestamp) / (self.slot_duration as int) + 1
    }

    /// The end timestamp of the slot numbered `slot`, as unbounded math.
    pub open spec fn slot_end_of(&self, slot: int) -> int {
        (slot - self.slot_offset) * self.slot_duration + self.start_timestamp
    }

    /// The start timestamp of the slot numbered `slot`, as unbounded math.
    pub open spec fn slot_start_of(&self, slot: int) -> int {
        self.slot_end_of(slot) - self.slot_duration
    }

    /// How many seconds timestamp `t` lies into its slot, as unbounded math.
    /// Meaningful only for `t >= self.start_timestamp % self.slot_duration`,
    /// the UTC-aligned origin of the slot grid.
    pub open spec fn point_of(&self, t: int) -> int
        recommends
            self.wf(),
            t >= self.start_timestamp % self.slot_duration,
    {
        (t - self.start_timestamp % self.slot_duration) % (self.slot_duration as int)
    }

    /// The machine bound under which `slot_containing` can represent its
    /// result: the slot containing `t`, when there is one, fits in `usize`.
    pub open spec fn slot_fits(&self, t: u64) -> bool {
        t >= self.start_timestamp ==> self.slot_of(t as int) <= usize::MAX
    }

    /// Creates a new slot calculator.
    pub fn new(start_timestamp: u64, slot_offset: usize, slot_duration: u64) -> (r: Self)
        requires
            slot_duration > 0,
        ensures
            r == (SlotCalculator { start_timestamp, slot_offset, slot_duration }),
            r.wf(),
    {
        Self { start_timestamp, slot_offset, slot_duration }
    }

    /// Creates a new slot calculator for Holesky.
    pub fn holesky() -> (r: Self)
        ensures
            r == (SlotCalculator {
                start_timestamp: 1695902424u64,
                slot_offset: 2usize,
                slot_duration: 12u64,
            }),
            r.wf(),
    {
        // begin slot calculation for Holesky from block number 1, slot number 2,
        // timestamp 1695902424, because of a strange 324 second gap between
        // block 0 and 1 which should have been 27 slots, but which is recorded
        // as 2 slots in chain data
        Self { start_timestamp: 1695902424, slot_offset: 2, slot_duration: 12 }
    }

    /// Creates a new slot calculator for Pecorino host network.
    pub fn pecorino_host() -> (r: Self)
        ensures
            r == (SlotCalculator {
                start_timestamp: 1754584265u64,
                slot_offset: 0usize,
                slot_duration: 12u64,
            }),
            r.wf(),
    {
        Self { start_timestamp: 1754584265, slot_offset: 0, slot_duration: 12 }
    }

    /// Creates a new slot calculator for Ethereum mainnet.
    pub fn mainnet() -> (r: Self)
        ensures
            r == (SlotCalculator {
                start_timestamp: 1663224179u64,
                slot_offset: 4700013usize,
                slot_duration: 12u64,
            }),
            r.wf(),
    {
        Self { start_timestamp: 1663224179, slot_offset: 4700013, slot_duration: 12 }
    }

    /// The timestamp of the first PoS block in the chain.
    pub fn start_timestamp(&self) -> (r: u64)
        ensures
            r == self.start_timestamp,
    {
        self.start_timestamp
    }

    /// The slot number of the first PoS block in the chain.
    pub fn slot_offset(&self) -> (r: usize)
        ensures
            r == self.slot_offset,
    {
        self.slot_offset
    }

    /// The slot duration, usually 12 seconds.
    pub fn slot_duration(&self) -> (r: u64)
        ensures
            r == self.slot_duration,
    {
        self.slot_duration
    }

    /// The offset in seconds between UTC time and slot mining times.
    fn slot_utc_offset(&self) -> (r: u64)
        requires
            self.wf(),
        ensures
            r == self.start_timestamp % self.slot_duration,
    {
        self.start_timestamp % self.slot_duration
    }

    /// Calculates the slot that contains a given timestamp.
    ///
    /// Returns `None` if the timestamp is before the chain's start timestamp;
    /// callers must treat that as a legitimate, expected outcome.
    pub fn slot_containing(&self, timestamp: u64) -> (r: Option<usize>)
        requires
            self.wf(),
            self.slot_fits(timestamp),
        ensures
            r is Some <==> timestamp >= self.start_timestamp,
            r matches Some(slot) ==> slot == self.slot_of(timestamp as int),
    {
        let elapsed = match timestamp.checked_sub(self.start_timestamp) {
            Some(e) => e,
            None => {
                return None;
            },
        };
        let slots = elapsed / self.slot_duration + 1;
        Some(slots as usize + self.slot_offset)
    }

    /// Calculates how many seconds a given timestamp is into its containing
    /// slot.
    ///
    /// Returns `None` if the timestamp is before the UTC-aligned origin of
    /// the slot grid (which is at or before the chain's start).
    pub fn point_within_slot(&self, timestamp: u64) -> (r: Option<u64>)
        requires
            self.wf(),
        ensures
            r is Some <==> timestamp >= self.start_timestamp % self.slot_duration,
            r matches Some(point) ==> point == self.point_of(timestamp as int),
            r matches Some(point) ==> point < self.slot_duration,
    {
        let offset = match timestamp.checked_sub(self.slot_utc_offset()) {
            Some(o) => o,
            None => {
                return None;
            },
        };
        Some(offset % self.slot_duration)
    }

    /// Calculates how many seconds a given timestamp is into a given slot.
    /// Returns `None` if the timestamp is not within the slot.
    pub fn checked_point_within_slot(&self, slot: usize, timestamp: u64) -> (r: Option<u64>)
        requires
            self.wf(),
            self.slot_fits(timestamp),
        ensures
            r is Some <==> (timestamp >= self.start_timestamp && self.slot_of(timestamp as int)
                == slot),
            r matches Some(point) ==> point == self.point_of(timestamp as int),
    {
        let calculated = self.slot_containing(timestamp);
        match calculated {
            Some(s) if s == slot => {
                proof {
                    // The start of the chain is at or after the origin of the
                    // UTC-aligned slot grid, so the point is defined here.
                    lemma_mod_decreases(self.start_timestamp as nat, self.slot_duration as nat);
                }
                self.point_within_slot(timestamp)
            },
            _ => None,
        }
    }

    /// Calculates the start and end timestamps for a given slot.
    ///
    /// The window is half-open: the start belongs to the slot, the end is the
    /// first instant of the next one.
    pub fn slot_window(&self, slot_number: usize) -> (r: std::ops::Range<u64>)
        requires
            self.wf(),
            slot_number >= self.slot_offset,
            self.slot_end_of(slot_number as int) <= u64::MAX,
            self.slot_end_of(slot_number as int) >= self.slot_duration,
        ensures
            r.start == self.slot_start_of(slot_number as int),
            r.end == self.slot_end_of(slot_number as int),
    {
        let end_of_slot = (slot_number - self.slot_offset) as u64 * self.slot_duration
            + self.start_timestamp;
        let start_of_slot = end_of_slot - self.slot_duration;
        start_of_slot..end_of_slot
    }

    /// Calculates the start timestamp of a given slot.
    pub fn slot_start(&self, slot_number: usize) -> (r: u64)
        requires
            self.wf(),
            slot_number >= self.slot_offset,
            self.slot_end_of(slot_number as int) <= u64::MAX,
            self.slot_end_of(slot_number as int) >= self.slot_duration,
        ensures
            r == self.slot_start_of(slot_number as int),
    {
        let window = self.slot_window(slot_number);
        window.start
    }

    /// Calculates the end timestamp of a given slot.
    pub fn slot_end(&self, slot_number: usize) -> (r: u64)
        requires
            self.wf(),
            slot_number >= self.slot_offset,
            self.slot_end_of(slot_number as int) <= u64::MAX,
            self.slot_end_of(slot_number as int) >= self.slot_duration,
        ensures
            r == self.slot_end_of(slot_number as int),
    {
        let window = self.slot_window(slot_number);
        window.end
    }

    /// Calculates the timestamp that will appear in the header of the block
    /// at the given slot number (if any block is produced). This is an alias
    /// for [`Self::slot_end`].
    #[inline(always)]
    pub fn slot_timestamp(&self, slot_number: usize) -> (r: u64)
        requires
            self.wf(),
            slot_number >= self.slot_offset,
            self.slot_end_of(slot_number as int) <= u64::MAX,
            self.slot_end_of(slot_number as int) >= self.slot_duration,
        ensures
            r == self.slot_end_of(slot_number as int),
    {
        // The timestamp of the slot is the end of the slot window.
        self.slot_end(slot_number)
    }

    /// Calculates the slot window for the slot that contains the given
    /// timestamp. The window is the half-open range `start..end` and always
    /// contains the timestamp.
    ///
    /// Returns `None` if the timestamp is before the chain's start timestamp.
    pub fn slot_window_for_timestamp(&self, timestamp: u64) -> (r: Option<std::ops::Range<u64>>)
        requires
            self.wf(),
            self.slot_fits(timestamp),
            timestamp >= self.start_timestamp ==> timestamp + self.slot_duration <= u64::MAX,
        ensures
            r is Some <==> timestamp >= self.start_timestamp,
            r matches Some(w) ==> {
                &&& w.start == self.slot_start_of(self.slot_of(timestamp as int))
                &&& w.end == self.slot_end_of(self.slot_of(timestamp as int))
                &&& w.start <= timestamp < w.end
            },
    {
        let slot = match self.slot_containing(timestamp) {
            Some(s) => s,
            None => {
                return None;
            },
        };
        proof {
            let t = timestamp as int;
            let start = self.start_timestamp as int;
            let dur = self.slot_duration as int;
            let q = (t - start) / dur;
            lemma_fundamental_div_mod(t - start, dur);
            lemma_mod_bound(t - start, dur);
            lemma_div_pos_is_pos(t - start, dur);
            assert((q + 1) * dur == q * dur + dur) by (nonlinear_arith);
            assert(q * dur == dur * q) by (nonlinear_arith);
        }
        Some(self.slot_window(slot))
    }

    /// Calculates the start timestamp for the slot that contains the given
    /// timestamp.
    pub fn slot_start_for_timestamp(&self, timestamp: u64) -> (r: Option<u64>)
        requires
            self.wf(),
            self.slot_fits(timestamp),
            timestamp >= self.start_timestamp ==> timestamp + self.slot_duration <= u64::MAX,
        ensures
            r is Some <==> timestamp >= self.start_timestamp,
            r matches Some(s) ==> s == self.slot_start_of(self.slot_of(timestamp as int)),
    {
        if let Some(window) = self.slot_window_for_timestamp(timestamp) {
            Some(window.start)
        } else {
            None
        }
    }

    /// Calculates the end timestamp for the slot that contains the given
    /// timestamp.
    pub fn slot_end_for_timestamp(&self, timestamp: u64) -> (r: Option<u64>)
        requires
            self.wf(),
            self.slot_fits(timestamp),
            timestamp >= self.start_timestamp ==> timestamp + self.slot_duration <= u64::MAX,
        ensures
            r is Some <==> timestamp >= self.start_timestamp,
            r matches Some(s) ==> s == self.slot_end_of(self.slot_of(timestamp as int)),
    {
        if let Some(window) = self.slot_window_for_timestamp(timestamp) {
            Some(window.end)
        } else {
            None
        }
    }

    /// Calculates the slot that starts at the given timestamp.
    /// Returns `None` if the timestamp is not a slot boundary.
    /// Returns `None` if the timestamp is before the chain's start timestamp.
    pub fn slot_starting_at(&self, timestamp: u64) -> (r: Option<usize>)
        requires
            self.wf(),
            self.slot_fits(timestamp),
        ensures
            r is Some <==> (timestamp >= self.start_timestamp && (timestamp as int
                - self.start_timestamp as int) % (self.slot_duration as int) == 0),
            r matches Some(slot) ==> slot == self.slot_of(timestamp as int),
    {
        let elapsed = match timestamp.checked_sub(self.start_timestamp) {
            Some(e) => e,
            None => {
                return None;
            },
        };
        if elapsed % self.slot_duration != 0 {
            return None;
        }
        self.slot_containing(timestamp)
    }

    /// Calculates the slot that ends at the given timestamp.
    /// Returns `None` if the timestamp is not a slot boundary.
    /// Returns `None` if the timestamp is before the chain's start timestamp.
    pub fn slot_ending_at(&self, timestamp: u64) -> (r: Option<usize>)
        requires
            self.wf(),
            self.slot_fits(timestamp),
        ensures
            r is Some <==> (timestamp >= self.start_timestamp && (timestamp as int
                - self.start_timestamp as int) % (self.slot_duration as int) == 0),
            r matches Some(slot) ==> slot == self.slot_of(timestamp as int) - 1,
    {
        let elapsed = match timestamp.checked_sub(self.start_timestamp) {
            Some(e) => e,
            None => {
                return None;
            },
        };
        if elapsed % self.slot_duration != 0 {
            return None;
        }
        match self.slot_containing(timestamp) {
            Some(slot) => {
                proof {
                    lemma_div_pos_is_pos(timestamp - self.start_timestamp, self.slot_duration as int);
                }
                Some(slot - 1)
            },
            None => None,
        }
    }

    /// The current slot number.
    ///
    /// Returns `None` if the current time is before the chain's start
    /// timestamp. The conversion itself is [`Self::slot_containing`]; this is
    /// a convenience wrapper feeding it the wall clock.
    pub fn current_slot(&self) -> (r: Option<usize>)
        requires
            self.wf(),
        ensures
            r matches Some(slot) ==> slot > self.slot_offset,
    {
        let now = unix_now();
        if now < self.start_timestamp {
            return None;
        }
        let q = (now - self.start_timestamp) / self.slot_duration;
        if self.slot_offset < usize::MAX && q <= (usize::MAX - 1 - self.slot_offset) as u64 {
            self.slot_containing(now)
        } else {
            None
        }
    }

    /// The current number of seconds into the slot. The conversion itself is
    /// [`Self::point_within_slot`]; this is a convenience wrapper feeding it
    /// the wall clock.
    pub fn current_point_within_slot(&self) -> (r: Option<u64>)
        requires
            self.wf(),
        ensures
            r matches Some(point) ==> point < self.slot_duration,
    {
        self.point_within_slot(unix_now())
    }
}

/// The first instant of the chain, `start_timestamp`, lies in slot
/// `slot_offset + 1`: the initial recorded slot ends exactly at
/// `start_timestamp`, where the next slot begins, so the chain's first
/// timestamp already belongs to the slot after the initial one.
pub proof fn lemma_slot_at_chain_start(c: SlotCalculator)
    requires
        c.wf(),
    ensures
        c.slot_of(c.start_timestamp as int) == c.slot_offset + 1,
        c.slot_end_of(c.slot_offset as int) == c.start_timestamp,
        c.slot_start_of(c.slot_offset as int + 1) == c.start_timestamp,
{
    lemma_adjacent_slots_abut(c, c.slot_offset as int);
}

/// Adjacent slots neither gap nor overlap: each slot's end is exactly the
/// next slot's start.
pub proof fn lemma_adjacent_slots_abut(c: SlotCalculator, slot: int)
    ensures
        c.slot_end_of(slot) == c.slot_start_of(slot + 1),
{
    let dur = c.slot_duration as int;
    let off = c.slot_offset as int;
    assert((slot + 1 - off) * dur == (slot - off) * dur + dur) by (nonlinear_arith);
}

/// Within any slot past the chain's initial one, the slot's first instant
/// lies 0 seconds into the slot and its last instant lies
/// `slot_duration - 1` seconds into it.
pub proof fn lemma_point_at_slot_edges(c: SlotCalculator, slot: int)
    requires
        c.wf(),
        slot >= c.slot_offset + 1,
    ensures
        c.point_of(c.slot_start_of(slot)) == 0,
        c.point_of(c.slot_end_of(slot) - 1) == c.slot_duration - 1,
{
    let dur = c.slot_duration as int;
    let start = c.start_timestamp as int;
    let n = slot - c.slot_offset;
    let k = start / dur;
    let u = start % dur;
    lemma_fundamental_div_mod(start, dur);
    lemma_div_pos_is_pos(start, dur);
    lemma_mod_bound(start, dur);
    assert(c.slot_end_of(slot) == n * dur + start);
    // The slot's first instant is a whole number of slots past the grid
    // origin.
    assert((n * dur + start - dur) - u == (n - 1 + k) * dur) by (nonlinear_arith)
        requires
            start == dur * k + u,
    ;
    lemma_mod_multiples_basic(n - 1 + k, dur);
    // The slot's last instant is one short of the next grid line.
    assert((n * dur + start - 1) - u == (n + k - 1) * dur + (dur - 1)) by (nonlinear_arith)
        requires
            start == dur * k + u,
    ;
    lemma_fundamental_div_mod_converse_mod(c.slot_end_of(slot) - 1 - u, dur, n + k - 1, dur - 1);
}

} // verus!
