//! Slot-based authorization for a rotating roster of block builders.
//!
//! A fixed, ordered roster of builders takes turns holding write access to a
//! block-production pipeline. Which builder holds access is purely a function
//! of wall-clock time and roster position: the host chain's time is divided
//! into fixed-width slots, and the roster is cycled round-robin, one builder
//! per slot.
//!
//! - [`calc`] converts between Unix timestamps and chain slot numbers,
//!   handling chains whose slot numbering does not start at zero.
//! - [`config`] bounds the portion of each slot during which requests are
//!   serviced.
//! - [`builders`] holds the roster and decides whether a claimed identity
//!   is the builder assigned to the current slot.
//! - [`middleware`] turns an inbound request's claimed identity into a
//!   typed accept/reject decision for a transport adapter to enforce.
//! - [`clock`] reads the wall clock; it is the only impure operation.

pub mod builders;
pub mod calc;
pub mod clock;
pub mod config;
pub mod middleware;
