//! The state that the status indicator renders, its one-byte encoding for
//! the shared cell, and the blink cadence that belongs to each state.

use vstd::prelude::*;

verus! {

/// Time between two toggles of the fast blink, in milliseconds.
pub const FAST_BLINK_MS: u64 = 200;

/// Time between two toggles of the slow blink, in milliseconds.
pub const SLOW_BLINK_MS: u64 = 750;

/// The byte that the shared cell holds before anything is published.
pub const INITIAL_CELL: u8 = 0;

/// What the status indicator shows.
#[derive(Clone, Copy, Debug, PartialEq, Eq, Structural)]
pub enum LedState {
    /// Fast blink: no usable network yet.
    Connecting,
    /// Slow blink: associated, and an address has been confirmed.
    Connected,
}

impl LedState {
    /// The byte that stands for this state in the shared cell.
    pub open spec fn code(self) -> u8 {
        match self {
            LedState::Connecting => 0u8,
            LedState::Connected => 1u8,
        }
    }

    /// The state that a byte read from the shared cell stands for. Only `1`
    /// means `Connected`; every other byte falls back to `Connecting`.
    pub open spec fn decode(value: u8) -> LedState {
        if value == 1 {
            LedState::Connected
        } else {
            LedState::Connecting
        }
    }

    /// The time between two toggles of the output while this state is shown.
    pub open spec fn period_ms(self) -> u64 {
        match self {
            LedState::Connecting => FAST_BLINK_MS,
            LedState::Connected => SLOW_BLINK_MS,
        }
    }

    /// Encodes the state as one byte.
    pub fn as_u8(self) -> (code: u8)
        ensures
            code == self.code(),
    {
        match self {
            LedState::Connecting => 0,
            LedState::Connected => 1,
        }
    }

    /// Decodes a byte; total, so that a cell holding anything can be read.
    pub fn from_u8(value: u8) -> (state: LedState)
        ensures
            state == LedState::decode(value),
    {
        match value {
            1 => LedState::Connected,
            _ => LedState::Connecting,
        }
    }

    /// The blink period of this state in milliseconds.
    pub fn blink_period_ms(self) -> (period: u64)
        ensures
            period == self.period_ms(),
    {
        match self {
            LedState::Connecting => FAST_BLINK_MS,
            LedState::Connected => SLOW_BLINK_MS,
        }
    }
}

/// Decoding undoes encoding: a state written to the cell is the state read
/// back from it.
pub proof fn lemma_decode_inverts_code(state: LedState)
    ensures
        LedState::decode(state.code()) == state,
{
}

/// A cell that nothing was published to yet reads as `Connecting`.
pub proof fn lemma_initial_cell_reads_connecting()
    ensures
        INITIAL_CELL == LedState::Connecting.code(),
        LedState::decode(INITIAL_CELL) == LedState::Connecting,
{
}

/// Two different states never share a byte.
pub proof fn lemma_code_is_injective(a: LedState, b: LedState)
    requires
        a.code() == b.code(),
    ensures
        a == b,
{
}

/// The fast blink is strictly faster than the slow one, and neither period
/// is zero.
pub proof fn lemma_connecting_blinks_faster()
    ensures
        0 < LedState::Connecting.period_ms() < LedState::Connected.period_ms(),
{
}

} // verus!
