//! Pacing policy: the randomised pauses that keep the cadence of the client
//! close to that of a person.
//!
//! The library only draws the length of a pause. Waiting it out is the
//! driver's part.

use vstd::prelude::*;
use rand::Rng;
use crate::flow::PauseKind;

verus! {

/// The shortest length of a pause of the given kind, in milliseconds.
pub open spec fn pause_floor(kind: PauseKind) -> u64 {
    match kind {
        PauseKind::PreRefresh => 1500,
        PauseKind::PreSearch => 1000,
        PauseKind::InterOfferStep => 1500,
        PauseKind::InterUploadStep => 500,
        PauseKind::InterSkin => 2000,
    }
}

/// The length that a pause of the given kind stays below, in milliseconds.
pub open spec fn pause_ceiling(kind: PauseKind) -> u64 {
    match kind {
        PauseKind::PreRefresh => 2500,
        PauseKind::PreSearch => 2000,
        PauseKind::InterOfferStep => 2500,
        PauseKind::InterUploadStep => 1000,
        PauseKind::InterSkin => 3500,
    }
}

/// The range of a pause of the given kind: its shortest length, and the
/// length that it stays below.
pub fn pause_range(kind: PauseKind) -> (range: (u64, u64))
    ensures
        range.0 == pause_floor(kind),
        range.1 == pause_ceiling(kind),
        range.0 < range.1,
{
    match kind {
        PauseKind::PreRefresh => (1500, 2500),
        PauseKind::PreSearch => (1000, 2000),
        PauseKind::InterOfferStep => (1500, 2500),
        PauseKind::InterUploadStep => (500, 1000),
        PauseKind::InterSkin => (2000, 3500),
    }
}

/// A random number from `low` up to, but not including, `high`.
///
/// Trusted: stands for `gen_range(low..high)` on `rand::thread_rng()`, which
/// is documented to return a value of the range and to panic on an empty one.
/// Nothing is claimed of which value comes back.
#[verifier::external_body]
pub(crate) fn random_between(low: u64, high: u64) -> (n: u64)
    requires
        low < high,
    ensures
        low <= n < high,
{
    rand::thread_rng().gen_range(low..high)
}

/// Draws the length of a pause of the given kind, in milliseconds.
pub fn draw_pause(kind: PauseKind) -> (millis: u64)
    ensures
        pause_floor(kind) <= millis < pause_ceiling(kind),
{
    let (low, high) = pause_range(kind);
    random_between(low, high)
}

} // verus!
