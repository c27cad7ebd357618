//! A virtual input device driver's decisions: which events to write, when to sleep, when
//! to retry, and when a run is over, each proved against its contract.

pub mod events;
pub mod hotkey;
pub mod retry;
pub mod simulation;
