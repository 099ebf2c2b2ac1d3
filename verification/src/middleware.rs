//! Decision core of the request-interception layer.
//!
//! An inbound request carries its caller's pre-authenticated identity in a
//! designated attribute (historically the `x-jwt-claim-sub` header, set by
//! an upstream authentication step). The transport adapter extracts that
//! attribute, hands it here as a [`ClaimedIdentity`], and enforces the
//! returned decision: reject without forwarding, or forward unchanged.
//! Everything that decides stands here; the adapter only moves bytes.

use vstd::prelude::*;

use crate::builders::{BuilderPermissionError, Builders};
use crate::clock::unix_now;

verus! {

/// The claimed identity extracted from an inbound request's designated
/// attribute, before validation. The transport adapter builds this value:
/// it records whether the attribute was present and whether its bytes
/// decoded to a string, and the decision functions below turn it into an
/// accept/reject outcome.
#[derive(Debug, Clone)]
pub enum ClaimedIdentity {
    /// The request carried no identity attribute.
    Missing,
    /// The attribute was present but its encoding was invalid.
    Malformed,
    /// The attribute decoded to this claim string.
    Claimed(String),
}

/// Why an inbound request was rejected: one of the three identity-shaped
/// rejections, or a permissioning rejection with its reason. Each variant
/// is mappable by the surrounding transport to a distinct status code and
/// response body.
#[derive(Debug, Clone, Copy, PartialEq, Eq, Structural)]
pub enum ApiRejection {
    /// The request carried no identity attribute.
    MissingIdentity,
    /// The identity attribute's encoding was invalid.
    MalformedIdentity,
    /// The identity attribute was empty after decoding.
    EmptyIdentity,
    /// The identity was well formed, but the slot-authorization check
    /// rejected it.
    PermissionDenied(BuilderPermissionError),
}

/// The validation of a claimed identity, before any timing or roster
/// check: a missing attribute, an undecodable attribute, and an empty
/// claim are each rejected with their own reason; any other claim is the
/// requesting identity.
pub open spec fn identity_decision(id: ClaimedIdentity) -> Result<Seq<char>, ApiRejection> {
    match id {
        ClaimedIdentity::Missing => Err(ApiRejection::MissingIdentity),
        ClaimedIdentity::Malformed => Err(ApiRejection::MalformedIdentity),
        ClaimedIdentity::Claimed(s) => if s@.len() == 0 {
            Err(ApiRejection::EmptyIdentity)
        } else {
            Ok(s@)
        },
    }
}

/// The complete decision for an inbound request at timestamp `t`: identity
/// validation first (its rejections never reach the timing checks), then
/// the slot-authorization decision of [`Builders::decision_at`]. Meaningful
/// only for `t` at or after the chain's start.
pub open spec fn intercept_decision(b: Builders, id: ClaimedIdentity, t: int) -> Result<
    (),
    ApiRejection,
>
    recommends
        b.wf(),
        t >= b.config.calc.start_timestamp,
{
    match identity_decision(id) {
        Err(e) => Err(e),
        Ok(sub) => match b.decision_at(sub, t) {
            Ok(_) => Ok(()),
            Err(e) => Err(ApiRejection::PermissionDenied(e)),
        },
    }
}

/// A human-readable hint for a permissioning rejection, for the transport
/// adapter to attach to its response.
pub fn builder_permissioning_hint(err: &BuilderPermissionError) -> (r: Option<&'static str>)
    ensures
        match *err {
            BuilderPermissionError::ActionAttemptTooEarly => r matches Some(h) && h@
                == "Action attempted too early in the slot."@,
            BuilderPermissionError::ActionAttemptTooLate => r matches Some(h) && h@
                == "Action attempted too late in the slot."@,
            BuilderPermissionError::NotPermissioned => r matches Some(h) && h@
                == "Builder is not permissioned for this slot."@,
        },
{
    match err {
        BuilderPermissionError::ActionAttemptTooEarly => {
            Some("Action attempted too early in the slot.")
        },
        BuilderPermissionError::ActionAttemptTooLate => {
            Some("Action attempted too late in the slot.")
        },
        BuilderPermissionError::NotPermissioned => {
            Some("Builder is not permissioned for this slot.")
        },
    }
}

/// Validates the claimed identity of an inbound request, returning the
/// claim string exactly when [`identity_decision`] accepts it.
pub fn validate_claimed_identity(id: &ClaimedIdentity) -> (r: Result<&String, ApiRejection>)
    ensures
        r matches Ok(s) ==> identity_decision(*id) == Ok::<Seq<char>, ApiRejection>(s@),
        r matches Err(e) ==> identity_decision(*id) == Err::<Seq<char>, ApiRejection>(e),
{
    match id {
        ClaimedIdentity::Missing => Err(ApiRejection::MissingIdentity),
        ClaimedIdentity::Malformed => Err(ApiRejection::MalformedIdentity),
        ClaimedIdentity::Claimed(s) => {
            if s.as_str().is_empty() {
                Err(ApiRejection::EmptyIdentity)
            } else {
                Ok(s)
            }
        },
    }
}

/// Decides an inbound request at the given timestamp: the claimed identity
/// is validated, then the slot-authorization check runs in its order. The
/// result is exactly [`intercept_decision`]; on any rejection the caller
/// must not forward the request, and on success it forwards the request
/// unchanged.
pub fn check_request_at(builders: &Builders, id: &ClaimedIdentity, timestamp: u64) -> (r: Result<
    (),
    ApiRejection,
>)
    requires
        builders.wf(),
        timestamp >= builders.config.calc.start_timestamp,
        builders.config.calc.slot_fits(timestamp),
    ensures
        r == intercept_decision(*builders, *id, timestamp as int),
{
    let sub = match validate_claimed_identity(id) {
        Ok(s) => s,
        Err(e) => {
            return Err(e);
        },
    };
    match builders.is_builder_permissioned_at(sub.as_str(), timestamp) {
        Ok(_) => Ok(()),
        Err(e) => Err(ApiRejection::PermissionDenied(e)),
    }
}

/// Decides an inbound request at the current wall-clock time. The decision
/// logic itself is [`check_request_at`]; this wrapper feeds it the clock,
/// rejecting as too early whenever the chain has not started yet (and as
/// too late in the degenerate case of a slot number too large to
/// represent). Identity-shaped rejections are decided before the clock is
/// consulted, as [`identity_decision`] says; a well-formed claim is only
/// ever permitted or refused by the permissioning check, never answered
/// with an identity-shaped rejection.
pub fn check_request(builders: &Builders, id: &ClaimedIdentity) -> (r: Result<(), ApiRejection>)
    requires
        builders.wf(),
    ensures
        identity_decision(*id) matches Err(e) ==> r == Err::<(), ApiRejection>(e),
        identity_decision(*id) is Ok ==> (r is Ok || (r matches Err(e) && (e matches
            ApiRejection::PermissionDenied(_)))),
        r is Ok ==> exists|t: int|
            t >= builders.config.calc.start_timestamp && #[trigger] intercept_decision(
                *builders,
                *id,
                t,
            ) is Ok,
{
    let sub = match validate_claimed_identity(id) {
        Ok(s) => s,
        Err(e) => {
            return Err(e);
        },
    };
    let now = unix_now();
    if now < builders.config.calc.start_timestamp {
        return Err(ApiRejection::PermissionDenied(BuilderPermissionError::ActionAttemptTooEarly));
    }
    let q = (now - builders.config.calc.start_timestamp) / builders.config.calc.slot_duration;
    if builders.config.calc.slot_offset < usize::MAX && q <= (usize::MAX - 1
        - builders.config.calc.slot_offset) as u64 {
        let r = check_request_at(builders, id, now);
        proof {
            if r is Ok {
                assert(intercept_decision(*builders, *id, now as int) is Ok);
            }
        }
        r
    } else {
        Err(ApiRejection::PermissionDenied(BuilderPermissionError::ActionAttemptTooLate))
    }
}

} // verus!
