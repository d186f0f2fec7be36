//! Door lock: unlock sources and the lock state machine.

pub mod state;
pub mod table;

use vstd::prelude::*;

pub use state::{
    DoorStatus, FaultReason, LockMode, LockState, LockStatus, StateChange, StateMachine,
    StateTimeout, StateTransition, TransitionCondition,
};

verus! {

/// Where an unlock request came from.
#[derive(Debug, Clone, Copy, PartialEq, Eq, Structural)]
pub enum UnlockSource {
    /// NFC card ID
    Nfc(u32),
    /// APP user ID
    App(u32),
    /// Bluetooth device ID
    Bluetooth(u32),
    /// Remote command ID
    Remote(u32),
    /// Emergency unlock
    Emergency,
    /// Manual unlock
    Manual,
}

} // verus!
