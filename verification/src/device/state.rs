//! The small state enums that the gated modems are built from.

use vstd::prelude::*;

verus! {

/// Guards the tick phases: a tick that has started cannot start again, and a
/// tick that has ended cannot end again.
#[derive(Clone, Copy, Debug, PartialEq, Eq, Structural)]
pub enum TickState {
    InTick,
    OffTick,
}

/// What a half-duplex modem does with its antenna during a tick. Exactly one
/// of the three holds at any time.
#[derive(Clone, Copy, Debug, PartialEq, Eq, Structural)]
pub enum AntennaState {
    Transmit(u8),
    Receive(u8),
    Idle,
}

impl AntennaState {
    /// The byte the antenna broadcasts.
    pub open spec fn transmitting(self) -> Option<u8> {
        match self {
            AntennaState::Transmit(byte) => Some(byte),
            _ => None,
        }
    }

    /// The byte the antenna has picked up.
    pub open spec fn received(self) -> Option<u8> {
        match self {
            AntennaState::Receive(byte) => Some(byte),
            _ => None,
        }
    }
}

} // verus!
