//! The builder permissioning system.
//!
//! The permissioning system decides which builder can perform a certain
//! action at a given time. It uses a simple round-robin design, where each
//! builder is allowed to perform an action at a specific slot. Builders are
//! permissioned based on their sub, which is present in the JWT token they
//! acquire from an OAuth service.

use vstd::arithmetic::div_mod::{
    lemma_add_mod_noop_right, lemma_fundamental_div_mod, lemma_mod_add_multiples_vanish,
    lemma_mod_bound, lemma_mod_decreases, lemma_small_mod,
};
use vstd::prelude::*;

use crate::calc::SlotCalculator;
use crate::clock::unix_now;
use crate::config::SlotAuthzConfig;

verus! {

/// Possible errors when permissioning a builder.
#[derive(Debug, Clone, Copy, PartialEq, Eq, Structural)]
pub enum BuilderPermissionError {
    /// Action attempt too early.
    ActionAttemptTooEarly,
    /// Action attempt too late.
    ActionAttemptTooLate,
    /// Builder not permissioned for this slot.
    NotPermissioned,
}

/// An individual builder, identified by the `sub` (subject) claim carried
/// in the JWT token it authenticates with.
#[derive(Debug, Clone)]
pub struct Builder {
    /// The sub of the builder.
    pub sub: String,
}

impl From<String> for Builder {
    fn from(sub: String) -> (r: Self) {
        Self { sub }
    }
}

impl vstd::std_specs::convert::FromSpecImpl<String> for Builder {
    open spec fn obeys_from_spec() -> bool {
        true
    }

    open spec fn from_spec(sub: String) -> Self {
        Builder { sub }
    }
}

impl Builder {
    /// Create a new builder.
    pub fn new(sub: &str) -> (r: Self)
        ensures
            r.sub@ == sub@,
    {
        Self { sub: sub.to_owned() }
    }

    /// Get the sub of the builder.
    pub fn sub(&self) -> (r: &str)
        ensures
            r@ == self.sub@,
    {
        self.sub.as_str()
    }
}

/// Builders struct to keep track of the builders that are allowed to
/// perform actions, in rotation order.
///
/// The roster is fixed for this value's lifetime: membership changes only by
/// replacing the whole value, never in place.
#[derive(Debug, Clone)]
pub struct Builders {
    /// The ordered list of builders.
    pub builders: Vec<Builder>,
    /// The slot authorization configuration. See [`SlotAuthzConfig`] for
    /// more information.
    pub config: SlotAuthzConfig,
}

impl Builders {
    /// The roster: the ordered sequence of builder identities.
    pub open spec fn roster(&self) -> Seq<Seq<char>> {
        self.builders@.map_values(|b: Builder| b.sub@)
    }

    /// Well-formedness: the roster is non-empty (round robin over zero
    /// builders is undefined, so an empty roster is a fatal
    /// misconfiguration that must prevent startup) and the embedded
    /// configuration is well-formed.
    pub open spec fn wf(&self) -> bool {
        &&& self.builders@.len() > 0
        &&& self.config.wf()
    }

    /// The roster index assigned to a slot: the raw slot number modulo the
    /// roster length. Selection changes exactly once per slot boundary and
    /// is otherwise constant.
    pub open spec fn index_of_slot(&self, slot: int) -> int {
        slot % (self.builders@.len() as int)
    }

    /// The roster index assigned at a timestamp: derived from the slot
    /// containing it. Meaningful only for timestamps at or after the
    /// chain's start.
    pub open spec fn index_at(&self, t: int) -> int
        recommends
            self.wf(),
            t >= self.config.calc.start_timestamp,
    {
        self.index_of_slot(self.config.calc.slot_of(t))
    }

    /// The decision of the authorization check for the claimed identity
    /// `sub` at timestamp `t`, evaluated in order: a request earlier in its
    /// slot than `block_query_start` is too early; one later than
    /// `block_query_cutoff` is too late; one from any identity but the one
    /// assigned to the slot containing `t` is not permissioned; all other
    /// requests are permitted. Meaningful only for `t` at or after the
    /// chain's start.
    pub open spec fn decision_at(&self, sub: Seq<char>, t: int) -> Result<
        (),
        BuilderPermissionError,
    >
        recommends
            self.wf(),
            t >= self.config.calc.start_timestamp,
    {
        let point = self.config.calc.point_of(t);
        if point < self.config.block_query_start {
            Err(BuilderPermissionError::ActionAttemptTooEarly)
        } else if point > self.config.block_query_cutoff {
            Err(BuilderPermissionError::ActionAttemptTooLate)
        } else if sub != self.roster()[self.index_at(t)] {
            Err(BuilderPermissionError::NotPermissioned)
        } else {
            Ok(())
        }
    }

    /// Create a new Builders struct.
    pub fn new(builders: Vec<Builder>, config: SlotAuthzConfig) -> (r: Self)
        requires
            builders@.len() > 0,
            config.wf(),
        ensures
            r.builders == builders,
            r.config == config,
            r.wf(),
    {
        Self { builders, config }
    }

    /// Get the calculator instance.
    pub fn calc(&self) -> (r: SlotCalculator)
        ensures
            r == self.config.calc,
    {
        self.config.calc()
    }

    /// Get the slot authorization configuration.
    pub fn config(&self) -> (r: &SlotAuthzConfig)
        ensures
            *r == self.config,
    {
        &self.config
    }

    /// Get the builder at a specific index.
    pub fn builder_at(&self, index: usize) -> (r: &Builder)
        requires
            index < self.builders@.len(),
        ensures
            *r == self.builders@[index as int],
    {
        &self.builders[index]
    }

    /// Get the index of the builder that is allowed to sign a block for a
    /// particular timestamp.
    pub fn index(&self, timestamp: u64) -> (r: u64)
        requires
            self.wf(),
            timestamp >= self.config.calc.start_timestamp,
            self.config.calc.slot_fits(timestamp),
        ensures
            r == self.index_at(timestamp as int),
            r < self.builders@.len(),
    {
        let slot = self.config.calc.slot_containing(timestamp).unwrap();
        (slot as u64) % (self.builders.len() as u64)
    }

    /// Get the builder permissioned at a specific timestamp.
    pub fn builder_at_timestamp(&self, timestamp: u64) -> (r: &Builder)
        requires
            self.wf(),
            timestamp >= self.config.calc.start_timestamp,
            self.config.calc.slot_fits(timestamp),
        ensures
            r.sub@ == self.roster()[self.index_at(timestamp as int)],
    {
        let index = self.index(timestamp);
        // The index is strictly below the roster length, so it fits in
        // `usize` and stays in bounds.
        let len = self.builders.len();
        assert(index < len as u64);
        proof {
            lemma_mod_bound(
                self.config.calc.slot_of(timestamp as int),
                self.builders@.len() as int,
            );
        }
        let r = self.builder_at(index as usize);
        proof {
            let i = self.index_at(timestamp as int);
            assert(self.roster()[i] == self.builders@[i].sub@);
        }
        r
    }

    /// Get the index of the builder that is allowed to sign a block at the
    /// current timestamp.
    ///
    /// Returns `None` if the current time is before the chain's start (or
    /// its slot cannot be represented); round robin is undefined before the
    /// chain starts.
    pub fn index_now(&self) -> (r: Option<u64>)
        requires
            self.wf(),
        ensures
            r matches Some(i) ==> i < self.builders@.len(),
    {
        let now = unix_now();
        if now < self.config.calc.start_timestamp {
            return None;
        }
        let q = (now - self.config.calc.start_timestamp) / self.config.calc.slot_duration;
        if self.config.calc.slot_offset < usize::MAX && q <= (usize::MAX - 1
            - self.config.calc.slot_offset) as u64 {
            Some(self.index(now))
        } else {
            None
        }
    }

    /// Get the builder that is allowed to sign a block at the current
    /// timestamp.
    ///
    /// Returns `None` if the current time is before the chain's start (or
    /// its slot cannot be represented); otherwise the returned builder is
    /// one of the roster's entries.
    pub fn current_builder(&self) -> (r: Option<&Builder>)
        requires
            self.wf(),
        ensures
            r matches Some(b) ==> exists|i: int|
                0 <= i < self.builders@.len() && b.sub@ == #[trigger] self.roster()[i],
    {
        let len = self.builders.len();
        match self.index_now() {
            Some(index) => {
                assert(index < len as u64);
                let b = self.builder_at(index as usize);
                proof {
                    let i = index as int;
                    assert(self.roster()[i] == self.builders@[i].sub@);
                    assert(b.sub@ == self.roster()[i]);
                }
                Some(b)
            },
            None => None,
        }
    }

    /// Check the query bounds for a timestamp: a request earlier in its
    /// slot than `block_query_start` is too early, one later than
    /// `block_query_cutoff` is too late.
    fn check_query_bounds(&self, timestamp: u64) -> (r: Result<(), BuilderPermissionError>)
        requires
            self.wf(),
            timestamp >= self.config.calc.start_timestamp,
        ensures
            ({
                let point = self.config.calc.point_of(timestamp as int);
                if point < self.config.block_query_start {
                    r == Err::<(), BuilderPermissionError>(
                        BuilderPermissionError::ActionAttemptTooEarly,
                    )
                } else if point > self.config.block_query_cutoff {
                    r == Err::<(), BuilderPermissionError>(
                        BuilderPermissionError::ActionAttemptTooLate,
                    )
                } else {
                    r == Ok::<(), BuilderPermissionError>(())
                }
            }),
    {
        let current_slot_time = match self.config.calc.point_within_slot(timestamp) {
            Some(p) => p,
            None => {
                proof {
                    // The chain's start is at or after the slot grid origin,
                    // so a timestamp at or after the start always has a
                    // point; this branch cannot be reached.
                    lemma_mod_decreases(
                        self.config.calc.start_timestamp as nat,
                        self.config.calc.slot_duration as nat,
                    );
                    assert(false);
                }
                return Err(BuilderPermissionError::ActionAttemptTooEarly);
            },
        };
        if current_slot_time < self.config.block_query_start() {
            return Err(BuilderPermissionError::ActionAttemptTooEarly);
        }
        if current_slot_time > self.config.block_query_cutoff() {
            return Err(BuilderPermissionError::ActionAttemptTooLate);
        }
        Ok(())
    }

    /// Checks if a builder is allowed to perform an action at the given
    /// timestamp. This is a round-robin design, where each builder is
    /// allowed to perform an action at a specific slot, and what builder is
    /// allowed changes with each slot. The decision is exactly
    /// [`Self::decision_at`]: too early and too late are checked first, then
    /// the claimed identity is compared byte-for-byte against the builder
    /// assigned to the slot containing the timestamp.
    pub fn is_builder_permissioned_at(&self, sub: &str, timestamp: u64) -> (r: Result<
        (),
        BuilderPermissionError,
    >)
        requires
            self.wf(),
            timestamp >= self.config.calc.start_timestamp,
            self.config.calc.slot_fits(timestamp),
        ensures
            r == self.decision_at(sub@, timestamp as int),
    {
        if let Err(e) = self.check_query_bounds(timestamp) {
            return Err(e);
        }
        let permissioned = self.builder_at_timestamp(timestamp);
        let claimed: String = sub.to_owned();
        if !(claimed == permissioned.sub) {
            return Err(BuilderPermissionError::NotPermissioned);
        }
        Ok(())
    }

    /// Checks if a builder is allowed to perform an action at the current
    /// wall-clock time. The decision logic itself is
    /// [`Self::is_builder_permissioned_at`]; this wrapper feeds it the
    /// clock, rejecting as too early whenever the chain has not started yet
    /// (and as too late in the degenerate case of a slot number too large
    /// to represent).
    pub fn is_builder_permissioned(&self, sub: &str) -> (r: Result<(), BuilderPermissionError>)
        requires
            self.wf(),
        ensures
            r is Ok ==> exists|t: int|
                t >= self.config.calc.start_timestamp && #[trigger] self.decision_at(
                    sub@,
                    t,
                ) is Ok,
    {
        let now = unix_now();
        if now < self.config.calc.start_timestamp {
            return Err(BuilderPermissionError::ActionAttemptTooEarly);
        }
        let q = (now - self.config.calc.start_timestamp) / self.config.calc.slot_duration;
        if self.config.calc.slot_offset < usize::MAX && q <= (usize::MAX - 1
            - self.config.calc.slot_offset) as u64 {
            let r = self.is_builder_permissioned_at(sub, now);
            proof {
                if r is Ok {
                    assert(self.decision_at(sub@, now as int) is Ok);
                }
            }
            r
        } else {
            Err(BuilderPermissionError::ActionAttemptTooLate)
        }
    }
}

/// Round-robin periodicity: with a roster of length `k`, the roster index
/// assigned to slot `slot + k` is the one assigned to slot `slot`.
pub proof fn lemma_round_robin_periodic(b: &Builders, slot: int)
    requires
        b.wf(),
    ensures
        b.index_of_slot(slot + b.builders@.len()) == b.index_of_slot(slot),
{
    lemma_mod_add_multiples_vanish(slot, b.builders@.len() as int);
}

/// Round-robin exhaustiveness: across any `k` consecutive slots, where `k`
/// is the roster length, each roster index is assigned exactly once: some
/// slot in the window is assigned index `v`, and no two distinct slots in
/// the window share an index.
pub proof fn lemma_round_robin_exhaustive(b: &Builders, lo: int, v: int)
    requires
        b.wf(),
        0 <= v < b.builders@.len(),
    ensures
        exists|n: int|
            lo <= n < lo + b.builders@.len() && #[trigger] b.index_of_slot(n) == v,
        forall|n1: int, n2: int|
            #![trigger b.index_of_slot(n1), b.index_of_slot(n2)]
            lo <= n1 < lo + b.builders@.len() && lo <= n2 < lo + b.builders@.len()
                && b.index_of_slot(n1) == b.index_of_slot(n2) ==> n1 == n2,
{
    let k = b.builders@.len() as int;
    // Existence: the slot `lo + ((v - lo) % k)` lies in the window and is
    // assigned index v.
    let n = lo + ((v - lo) % k);
    lemma_mod_bound(v - lo, k);
    lemma_add_mod_noop_right(lo, v - lo, k);
    lemma_small_mod(v as nat, k as nat);
    assert(b.index_of_slot(n) == v);
    // Uniqueness: two slots of the window with equal indices differ by a
    // multiple of k smaller in magnitude than k, hence by zero.
    assert forall|n1: int, n2: int|
        #![trigger b.index_of_slot(n1), b.index_of_slot(n2)]
        lo <= n1 < lo + k && lo <= n2 < lo + k && b.index_of_slot(n1) == b.index_of_slot(
            n2,
        ) implies n1 == n2 by {
        lemma_fundamental_div_mod(n1, k);
        lemma_fundamental_div_mod(n2, k);
        let q1 = n1 / k;
        let q2 = n2 / k;
        assert(k * q1 - k * q2 == k * (q1 - q2)) by (nonlinear_arith);
        assert(q1 - q2 == 0) by (nonlinear_arith)
            requires
                k > 0,
                -k < k * (q1 - q2) < k,
        ;
    }
}

/// The serviced window gates every identity alike: at any instant at or
/// after the chain's start whose point within its slot is earlier than
/// `block_query_start`, the authorization check rejects every claimed
/// identity as too early; at any instant whose point is inside neither
/// bound — not too early, but later than `block_query_cutoff` — it rejects
/// every claimed identity as too late. (The too-early check is evaluated
/// first, so it wins when a degenerate configuration places the cutoff
/// below the start.)
pub proof fn lemma_window_gates_decision(b: &Builders, sub: Seq<char>, t: int)
    requires
        b.wf(),
        t >= b.config.calc.start_timestamp,
    ensures
        b.config.calc.point_of(t) < b.config.block_query_start ==> b.decision_at(sub, t)
            == Err::<(), BuilderPermissionError>(BuilderPermissionError::ActionAttemptTooEarly),
        b.config.calc.point_of(t) >= b.config.block_query_start && b.config.calc.point_of(t)
            > b.config.block_query_cutoff ==> b.decision_at(sub, t) == Err::<
            (),
            BuilderPermissionError,
        >(BuilderPermissionError::ActionAttemptTooLate),
{
}

/// Idempotence of the authorization check: the decision is a pure function
/// of the roster, the configuration, the claimed identity, and the instant,
/// so two evaluations with identical (frozen) inputs yield identical
/// decisions.
pub proof fn lemma_decision_idempotent(
    b: &Builders,
    sub: Seq<char>,
    t: int,
    r1: Result<(), BuilderPermissionError>,
    r2: Result<(), BuilderPermissionError>,
)
    requires
        r1 == b.decision_at(sub, t),
        r2 == b.decision_at(sub, t),
    ensures
        r1 == r2,
{
}

} // verus!
