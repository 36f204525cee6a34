//! Simulated modems whose ticks are gated by an explicit tick state.

pub mod queue;
pub mod state;
pub mod traits;
pub mod wired_modem;
pub mod wireless_modem;

pub use state::{AntennaState, TickState};
pub use traits::IODriverSimulator;
pub use wired_modem::WiredModemFake;
pub use wireless_modem::{WirelessModemCore, WirelessModemFake};
