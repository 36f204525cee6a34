//! Modems without a tick gate: every start of a tick takes the next queued
//! byte, and every end of a tick stores what was heard.
//!
//! ```text
//!   half-duplex, one antenna          full-duplex, two wires
//!
//!            \|/                        o             o
//!             |                         | TX          | RX
//!   +---------|----------+     +--------|-------------|------+
//!   |        / \         |     |        |             |      |
//!   |  +-->--+ +-->--+   |     |   +----+             |      |
//!   |  |             |   |     |   |                  |      |
//!   |  +-<- TX -<------+ |     |   +-<-- TX queue <------+   |
//!   |                | | |     |                      |  |   |
//!   |  +--<-- RX <---+ | |     |   +-<-- RX queue <---+  |   |
//!   |  |               | |     |   |                     |   |
//!   | TX pin      RX pin |     | TX pin             RX pin   |
//!   +--------------------+     +-----------------------------+
//! ```

use crate::model::{Duplex, Transceiver};
use std::collections::VecDeque;
use vstd::prelude::*;

verus! {

/// A simulated modem between a protocol layer (the pin side) and a shared
/// medium (the network side). Every operation is a step of [`Transceiver`].
pub trait IODriver: View<V = Transceiver> {
    /// The byte this modem broadcasts in the current tick, if any.
    fn get_from_device_network_side(&mut self) -> (byte: Option<u8>)
        ensures
            byte == old(self)@.on_air(),
            final(self)@ == old(self)@,
    ;

    /// Delivers a byte from the medium. Of several bytes delivered in one tick
    /// the last one is kept.
    fn put_to_device_network_side(&mut self, byte: u8)
        ensures
            final(self)@ == old(self)@.hear(byte),
    ;

    /// Takes the oldest byte that arrived from the medium.
    fn get_from_tx_pin(&mut self) -> (byte: Option<u8>)
        ensures
            byte == old(self)@.next_byte(),
            final(self)@ == old(self)@.dequeue(),
    ;

    /// Queues a byte for transmission.
    fn put_to_rx_pin(&mut self, byte: u8)
        ensures
            final(self)@ == old(self)@.enqueue(byte),
    ;

    /// Starts a tick: the oldest queued byte, if any, goes on air.
    fn start_tick(&mut self)
        ensures
            final(self)@ == old(self)@.begin_tick(),
    ;

    /// Ends the tick: the byte heard, if any, becomes readable on the pin side.
    fn end_tick(&mut self)
        ensures
            final(self)@ == old(self)@.finish_tick(),
    ;
}

/// What a half-duplex modem does during a tick. Exactly one of the three
/// holds at any time.
#[derive(Clone, Copy, Debug, PartialEq, Eq, Structural)]
pub enum DeviceState {
    TX(u8),
    RX(u8),
    Idle,
}

impl DeviceState {
    /// The byte the modem broadcasts.
    pub open spec fn transmitting(self) -> Option<u8> {
        match self {
            DeviceState::TX(byte) => Some(byte),
            _ => None,
        }
    }

    /// The byte the modem has picked up.
    pub open spec fn received(self) -> Option<u8> {
        match self {
            DeviceState::RX(byte) => Some(byte),
            _ => None,
        }
    }
}

/// A half-duplex modem, such as a radio or a single-wire transceiver.
pub struct RadioModuleDriver {
    device_state: DeviceState,
    rx_from_ether_buffer: VecDeque<u8>,
    tx_to_ether_buffer: VecDeque<u8>,
}

impl View for RadioModuleDriver {
    type V = Transceiver;

    closed spec fn view(&self) -> Transceiver {
        Transceiver {
            duplex: Duplex::Half,
            transmitting: self.device_state.transmitting(),
            received: self.device_state.received(),
            from_network: self.rx_from_ether_buffer@,
            to_network: self.tx_to_ether_buffer@,
        }
    }
}

impl RadioModuleDriver {
    /// An idle modem with empty queues.
    pub fn new() -> (modem: Self)
        ensures
            modem@ == Transceiver::idle(Duplex::Half),
    {
        RadioModuleDriver {
            device_state: DeviceState::Idle,
            rx_from_ether_buffer: VecDeque::new(),
            tx_to_ether_buffer: VecDeque::new(),
        }
    }

    /// Every modem of this type is half-duplex, and never transmits and
    /// receives at once.
    pub proof fn lemma_half_duplex(&self)
        ensures
            self@.duplex is Half,
            self@.wf(),
    {
    }

    /// Whether a byte from the medium waits to be read.
    pub fn read_ready(&self) -> (ready: bool)
        ensures
            ready == self@.readable(),
    {
        self.rx_from_ether_buffer.len() > 0
    }

    /// Whether a byte can be queued: always, as the queues are unbounded.
    pub fn write_ready(&self) -> (ready: bool)
        ensures
            ready,
    {
        true
    }
}

impl IODriver for RadioModuleDriver {
    fn get_from_device_network_side(&mut self) -> (byte: Option<u8>) {
        match self.device_state {
            DeviceState::TX(byte) => Some(byte),
            _ => None,
        }
    }

    fn put_to_device_network_side(&mut self, byte: u8) {
        match self.device_state {
            DeviceState::TX(_) => (),
            DeviceState::Idle | DeviceState::RX(_) => {
                self.device_state = DeviceState::RX(byte);
            },
        }
    }

    fn get_from_tx_pin(&mut self) -> (byte: Option<u8>) {
        self.rx_from_ether_buffer.pop_front()
    }

    fn put_to_rx_pin(&mut self, byte: u8) {
        self.tx_to_ether_buffer.push_back(byte);
    }

    fn start_tick(&mut self) {
        if let Some(byte) = self.tx_to_ether_buffer.pop_front() {
            self.device_state = DeviceState::TX(byte);
        } else {
            self.device_state = DeviceState::Idle;
        }
    }

    fn end_tick(&mut self) {
        match self.device_state {
            DeviceState::RX(byte) => {
                self.rx_from_ether_buffer.push_back(byte);
            },
            _ => (),
        }
        self.device_state = DeviceState::Idle;
    }
}

/// A full-duplex modem.
pub struct WiredModuleDriver {
    rx_from_network_buffer: VecDeque<u8>,
    tx_to_network_buffer: VecDeque<u8>,
    current_byte_to_network: Option<u8>,
    current_byte_from_network: Option<u8>,
}

impl View for WiredModuleDriver {
    type V = Transceiver;

    closed spec fn view(&self) -> Transceiver {
        Transceiver {
            duplex: Duplex::Full,
            transmitting: self.current_byte_to_network,
            received: self.current_byte_from_network,
            from_network: self.rx_from_network_buffer@,
            to_network: self.tx_to_network_buffer@,
        }
    }
}

impl WiredModuleDriver {
    /// An idle modem with empty queues.
    pub fn new() -> (modem: Self)
        ensures
            modem@ == Transceiver::idle(Duplex::Full),
    {
        Self {
            rx_from_network_buffer: VecDeque::new(),
            tx_to_network_buffer: VecDeque::new(),
            current_byte_to_network: None,
            current_byte_from_network: None,
        }
    }
}

impl WiredModuleDriver {
    /// Every modem of this type is full-duplex.
    pub proof fn lemma_full_duplex(&self)
        ensures
            self@.duplex is Full,
    {
    }
}

impl IODriver for WiredModuleDriver {
    fn get_from_device_network_side(&mut self) -> (byte: Option<u8>) {
        self.current_byte_to_network
    }

    fn put_to_device_network_side(&mut self, byte: u8) {
        self.current_byte_from_network = Some(byte);
    }

    fn get_from_tx_pin(&mut self) -> (byte: Option<u8>) {
        self.rx_from_network_buffer.pop_front()
    }

    fn put_to_rx_pin(&mut self, byte: u8) {
        self.tx_to_network_buffer.push_back(byte);
    }

    fn start_tick(&mut self) {
        self.current_byte_to_network = None;
        self.current_byte_from_network = None;
        if let Some(byte) = self.tx_to_network_buffer.pop_front() {
            self.current_byte_to_network = Some(byte);
        }
    }

    fn end_tick(&mut self) {
        if let Some(byte) = self.current_byte_from_network.take() {
            self.rx_from_network_buffer.push_back(byte);
        }
        self.current_byte_to_network = None;
    }
}

} // verus!
