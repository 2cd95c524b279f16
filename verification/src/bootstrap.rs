//! What the network interface is created from: the driver's hardware
//! address, a seed that differs from boot to boot, and the creation time in
//! the stack's signed microseconds.

use vstd::prelude::*;

verus! {

/// Microseconds per second.
pub const MICROS_PER_SECOND: u64 = 1_000_000;

/// An unsigned microsecond count read as the 64-bit two's-complement value
/// with the same bits, which is how the stack's timestamps hold it.
pub open spec fn signed_micros(uptime_micros: u64) -> int {
    if uptime_micros <= i64::MAX {
        uptime_micros as int
    } else {
        uptime_micros - 0x1_0000_0000_0000_0000
    }
}

/// Converts a monotonic clock reading to the stack's signed timestamp. The
/// two agree for the first 2^63 microseconds after boot.
pub fn stack_timestamp_micros(uptime_micros: u64) -> (micros: i64)
    ensures
        micros == signed_micros(uptime_micros),
        uptime_micros <= i64::MAX ==> micros == uptime_micros,
{
    if uptime_micros <= 0x7fff_ffff_ffff_ffff {
        uptime_micros as i64
    } else {
        let above: u64 = uptime_micros - 0x8000_0000_0000_0000;
        (above as i64) + i64::MIN
    }
}

/// The plain values that the logical interface is configured with.
#[derive(Clone, Copy, Debug, PartialEq, Eq)]
pub struct InterfaceSetup {
    /// The link-level address, as the driver reports it.
    pub hardware_address: [u8; 6],
    /// The seed that the stack draws its random numbers from.
    pub random_seed: u64,
    /// The creation time, in the stack's signed microseconds.
    pub created_at_micros: i64,
}

impl InterfaceSetup {
    /// The setup for an interface created `uptime_micros` after boot: the
    /// seed is the uptime in whole seconds.
    pub fn new(hardware_address: [u8; 6], uptime_micros: u64) -> (setup: InterfaceSetup)
        ensures
            setup.hardware_address == hardware_address,
            setup.random_seed == uptime_micros / MICROS_PER_SECOND,
            setup.created_at_micros == signed_micros(uptime_micros),
    {
        InterfaceSetup {
            hardware_address,
            random_seed: uptime_micros / MICROS_PER_SECOND,
            created_at_micros: stack_timestamp_micros(uptime_micros),
        }
    }
}

} // verus!
