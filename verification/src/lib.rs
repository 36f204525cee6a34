//! A deterministic, tick-quantized simulator of a shared transmission medium.
//!
//! Simulated modems queue bytes toward the medium and collect bytes from it.
//! Time advances in discrete ticks: at the start of a tick every modem decides
//! whether it transmits, the ether picks the single byte that is on the medium
//! and fans it out, and at the end of the tick every modem stores what it heard.
//!
//! - [`model`]: the mathematical model of a modem, and the laws it obeys.
//! - [`driver`]: modems without a tick gate.
//! - [`device`]: modems with a tick gate: a wired one, a wireless one, and a
//!   handle that shares a wireless one between threads.
//! - [`ether`]: the medium between modems that the ether owns, with the
//!   collision rule and its laws.
//! - [`simulator`]: several such ethers under their names.
//! - [`ether_simulator`]: a registry of shared modems with the medium between
//!   them, and the named handle that shares one registry between threads.
//! - [`network_simulator`]: the life cycle of a network of such registries,
//!   and the tick that advances it.

pub mod device;
pub mod driver;
pub mod ether;
pub mod ether_simulator;
pub mod model;
pub mod network_simulator;
pub mod simulator;

pub use device::{
    AntennaState, IODriverSimulator, TickState, WiredModemFake, WirelessModemCore,
    WirelessModemFake,
};
pub use driver::{DeviceState, IODriver, RadioModuleDriver, WiredModuleDriver};
pub use ether::Ether;
pub use ether_simulator::{DriverRegistry, EtherSimulator};
pub use model::{DeviceModel, Duplex, Transceiver};
pub use network_simulator::{NetworkModel, NetworkSimulator};
pub use simulator::Simulator;
