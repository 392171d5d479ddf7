//! Frontend (radio-frequency tuner) data types.
//!
//! The device itself is driven outside this library through ioctls; what
//! lives here are the plain values those calls exchange: status bits,
//! capability descriptions, property commands and their payloads.

pub mod properties;
pub mod sys;

use vstd::prelude::*;

use crate::utils::ValueBounds;
use sys::{spec_has_lock, FeCaps, FeStatus};

verus! {

/// How often the lock poll checks the status when the caller gives no
/// interval, in milliseconds.
pub const DEFAULT_POLL_INTERVAL_MS: u64 = 50;

/// The decision one round of the lock wait takes.
#[derive(Debug, Copy, Clone, PartialEq, Eq, Structural)]
pub enum LockPoll {
    /// The frontend reports lock: waiting succeeded.
    Locked,
    /// More time than the timeout has elapsed: waiting failed.
    TimedOut,
    /// Keep waiting: sleep one poll interval and ask again.
    Poll,
}

/// What [`lock_poll`] decides: lock wins over timeout, and the wait
/// times out only once strictly more than the budget has elapsed.
pub open spec fn spec_lock_poll(status: FeStatus, elapsed_ms: u64, timeout_ms: Option<u64>)
    -> LockPoll {
    if spec_has_lock(status) {
        LockPoll::Locked
    } else {
        match timeout_ms {
            Some(t) => if elapsed_ms > t {
                LockPoll::TimedOut
            } else {
                LockPoll::Poll
            },
            None => LockPoll::Poll,
        }
    }
}

/// One round of the wait-for-lock loop, over an injectable clock: the
/// caller reads the frontend status, measures the time elapsed since
/// the wait began, and acts on the decision — returning on `Locked`
/// and `TimedOut`, sleeping one poll interval on `Poll`.
pub fn lock_poll(status: FeStatus, elapsed_ms: u64, timeout_ms: Option<u64>) -> (r: LockPoll)
    ensures
        r == spec_lock_poll(status, elapsed_ms, timeout_ms),
{
    if status.has_lock() {
        return LockPoll::Locked;
    }
    match timeout_ms {
        Some(t) => {
            if elapsed_ms > t {
                LockPoll::TimedOut
            } else {
                LockPoll::Poll
            }
        },
        None => LockPoll::Poll,
    }
}

/// Information about a frontend device.
#[derive(Debug, Clone)]
pub struct Info {
    /// Name of the frontend.
    pub name: String,
    pub frequency: FrequencyInfo,
    pub symbol_rate: SymbolRateInfo,
    /// Capabilities supported by the frontend.
    pub capabilities: FeCaps,
}

/// Frequency characteristics for a frontend.
///
/// The frequencies are specified in Hz for terrestrial and cable
/// systems, and in kHz for satellite systems.
#[derive(Debug, Copy, Clone)]
pub struct FrequencyInfo {
    /// Frequency range supported by the frontend.
    pub frequency_range: ValueBounds,
    /// All frequencies are a multiple of this value.
    pub frequency_step_size: u32,
    /// Frequency tolerance.
    pub frequency_tolerance: u32,
}

/// Information related to cable and satellite systems.
#[derive(Debug, Copy, Clone)]
pub struct SymbolRateInfo {
    /// Symbol rate range (in Bauds) supported by the frontend.
    pub symbol_rate_range: ValueBounds,
    /// Maximal symbol rate tolerance, in ppm.
    pub symbol_rate_tolerance: u32,
}

} // verus!
