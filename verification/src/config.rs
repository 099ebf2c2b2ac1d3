//! Per-chain policy bounding when, within a slot, requests are accepted.

use vstd::prelude::*;

use crate::calc::SlotCalculator;

verus! {

/// The second of a slot below which `v` is clamped to stay: `v` itself when
/// it does not exceed the slot duration, the duration otherwise. A `u8`
/// always suffices to hold the result, since the clamped value never exceeds
/// the smaller of `v` and the duration.
pub open spec fn clamped_to_slot(v: u8, slot_duration: u64) -> u8 {
    if v <= slot_duration {
        v
    } else {
        slot_duration as u8
    }
}

/// Configuration object that describes the slot time settings for a chain.
///
/// Used to configure the slot authorization system: requests are serviced
/// only between `block_query_start` and `block_query_cutoff` seconds into
/// the current slot. Keeping the serviced band strictly inside the slot
/// provides margin against clock skew at the slot boundaries.
#[derive(Debug, Clone, Copy, PartialEq, Eq, Structural)]
pub struct SlotAuthzConfig {
    /// A [`SlotCalculator`] instance that can be used to calculate the slot
    /// number for a given timestamp.
    pub calc: SlotCalculator,
    /// The block query cutoff time in seconds. This is the slot second after
    /// which requests will not be serviced. E.g. a value of 10 in a
    /// 12-second slot means that requests are not serviced for the last 2
    /// seconds of any given slot.
    pub block_query_cutoff: u8,
    /// The block query start time in seconds. This is the slot second before
    /// which requests will not be serviced. E.g. a value of 1 means that
    /// requests are not serviced for the first second of any given slot.
    pub block_query_start: u8,
}

impl SlotAuthzConfig {
    /// Well-formedness: the calculator is well-formed and both bounds lie
    /// within the slot, so the serviced band is a sub-interval of every
    /// slot's `[0, slot_duration]` seconds.
    pub open spec fn wf(&self) -> bool {
        &&& self.calc.wf()
        &&& self.block_query_start <= self.calc.slot_duration
        &&& self.block_query_cutoff <= self.calc.slot_duration
    }

    /// Creates a new `SlotAuthzConfig`, clamping each bound into
    /// `[0, calc.slot_duration()]`. Malformed configuration is degraded this
    /// way rather than rejected, to keep a service startable.
    pub fn new(calc: SlotCalculator, block_query_cutoff: u8, block_query_start: u8) -> (r: Self)
        requires
            calc.wf(),
        ensures
            r == (SlotAuthzConfig {
                calc,
                block_query_cutoff: clamped_to_slot(block_query_cutoff, calc.slot_duration),
                block_query_start: clamped_to_slot(block_query_start, calc.slot_duration),
            }),
            r.wf(),
    {
        let cutoff = if block_query_cutoff as u64 <= calc.slot_duration {
            block_query_cutoff
        } else {
            calc.slot_duration as u8
        };
        let start = if block_query_start as u64 <= calc.slot_duration {
            block_query_start
        } else {
            calc.slot_duration as u8
        };
        Self { calc, block_query_cutoff: cutoff, block_query_start: start }
    }

    /// Get the slot calculator instance.
    pub fn calc(&self) -> (r: SlotCalculator)
        ensures
            r == self.calc,
    {
        self.calc
    }

    /// Get the block query cutoff time in seconds.
    pub fn block_query_cutoff(&self) -> (r: u64)
        ensures
            r == self.block_query_cutoff as u64,
    {
        self.block_query_cutoff as u64
    }

    /// Get the block query start time in seconds.
    pub fn block_query_start(&self) -> (r: u64)
        ensures
            r == self.block_query_start as u64,
    {
        self.block_query_start as u64
    }
}

} // verus!
