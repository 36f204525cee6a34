//! A full-duplex modem.
//!
//! ```text
//!                  o             o
//!                  | TX          | RX
//!  +---------------|-------------|--------+
//!  | Modem Device  |             |        |
//!  |       +-------+             |        |
//!  |       |                     |        |
//!  | (T byte to netw)  (T byte from netw) |
//!  |       |                     |        |
//!  |       +--<-- To net buffer <----+    |
//!  |                             |   |    |
//!  |    +<---<- From net buffer <+   |    |
//!  |    |                            |    |
//!  |  TX pin                     RX pin   |
//!  +--------------------------------------+
//!       |                            |
//!       o                            o
//! ```

use crate::device::queue::{read_from_queue, write_to_queue};
use crate::device::state::TickState;
use crate::device::traits::IODriverSimulator;
use crate::model::{DeviceModel, Duplex, Transceiver};
use core::convert::Infallible;
use std::collections::VecDeque;
use vstd::prelude::*;

verus! {

/// A modem on a wired link: within one tick it puts one byte on the medium
/// and takes one byte from it, each independently of the other.
pub struct WiredModemFake {
    from_network_buffer: VecDeque<u8>,
    to_network_buffer: VecDeque<u8>,
    tick_byte_to_network: Option<u8>,
    tick_byte_from_network: Option<u8>,
    tick_state: TickState,
    name: String,
}

impl View for WiredModemFake {
    type V = DeviceModel;

    closed spec fn view(&self) -> DeviceModel {
        DeviceModel {
            name: self.name@,
            in_tick: self.tick_state is InTick,
            link: Transceiver {
                duplex: Duplex::Full,
                transmitting: self.tick_byte_to_network,
                received: self.tick_byte_from_network,
                from_network: self.from_network_buffer@,
                to_network: self.to_network_buffer@,
            },
        }
    }
}

impl WiredModemFake {
    /// A modem without a name, off tick, idle, with empty queues.
    pub fn new() -> (modem: Self)
        ensures
            modem@ == DeviceModel::fresh(Seq::empty(), Duplex::Full),
    {
        Self {
            from_network_buffer: VecDeque::new(),
            to_network_buffer: VecDeque::new(),
            tick_byte_to_network: None,
            tick_byte_from_network: None,
            tick_state: TickState::OffTick,
            name: String::new(),
        }
    }

    /// A modem that goes by `name`, off tick, idle, with empty queues.
    pub fn with_name(name: &str) -> (modem: Self)
        ensures
            modem@ == DeviceModel::fresh(name@, Duplex::Full),
    {
        Self {
            from_network_buffer: VecDeque::new(),
            to_network_buffer: VecDeque::new(),
            tick_byte_to_network: None,
            tick_byte_from_network: None,
            tick_state: TickState::OffTick,
            name: name.to_owned(),
        }
    }

    /// Every modem of this type is full-duplex.
    pub proof fn lemma_full_duplex(&self)
        ensures
            self@.link.duplex is Full,
    {
    }

    /// Fills `buf` from the front with the bytes that wait on the pin side and
    /// returns how many were read. The rest of `buf` is left as it was.
    pub fn read(&mut self, buf: &mut [u8]) -> (result: Result<usize, Infallible>)
        ensures
            result matches Ok(count) && count == old(self)@.read_count(old(buf)@.len()),
            final(self)@ == old(self)@.after_read(old(buf)@.len()),
            final(buf)@ == old(self)@.read_bytes(old(buf)@.len()) + old(buf)@.skip(
                old(self)@.read_count(old(buf)@.len()) as int,
            ),
    {
        Ok(read_from_queue(&mut self.from_network_buffer, buf))
    }

    /// Queues every byte of `buf` for transmission and returns how many were
    /// queued, which is all of them.
    pub fn write(&mut self, buf: &[u8]) -> (result: Result<usize, Infallible>)
        ensures
            result matches Ok(count) && count == buf@.len(),
            final(self)@ == old(self)@.after_write(buf@),
    {
        Ok(write_to_queue(&mut self.to_network_buffer, buf))
    }

    /// Nothing is buffered beyond the queues, so there is nothing to flush.
    pub fn flush(&mut self) -> (result: Result<(), Infallible>)
        ensures
            result == Ok::<(), Infallible>(()),
            final(self)@ == old(self)@,
    {
        Ok(())
    }
}

impl IODriverSimulator for WiredModemFake {
    fn get_from_device_network_side(&self) -> (byte: Option<u8>) {
        match self.tick_state {
            TickState::InTick => self.tick_byte_to_network,
            TickState::OffTick => None,
        }
    }

    fn put_to_device_network_side(&mut self, byte: u8) {
        match self.tick_state {
            TickState::InTick => {
                self.tick_byte_from_network = Some(byte);
            },
            TickState::OffTick => (),
        };
    }

    fn get_from_tx_pin(&mut self) -> (byte: Option<u8>) {
        self.from_network_buffer.pop_front()
    }

    fn put_to_rx_pin(&mut self, byte: u8) {
        self.to_network_buffer.push_back(byte);
    }

    fn start_tick(&mut self) {
        match self.tick_state {
            TickState::InTick => (),
            TickState::OffTick => {
                self.tick_byte_to_network = None;
                self.tick_byte_from_network = None;
                if let Some(byte) = self.to_network_buffer.pop_front() {
                    self.tick_byte_to_network = Some(byte);
                }
                self.tick_state = TickState::InTick;
            },
        }
    }

    fn end_tick(&mut self) {
        match self.tick_state {
            TickState::OffTick => (),
            TickState::InTick => {
                if let Some(byte) = self.tick_byte_from_network.take() {
                    self.from_network_buffer.push_back(byte);
                }
                self.tick_byte_to_network = None;
                self.tick_state = TickState::OffTick;
            },
        }
    }

    fn readable(&self) -> (ready: bool) {
        self.from_network_buffer.len() > 0
    }

    fn writable(&self) -> (ready: bool) {
        true
    }

    fn get_name(&self) -> (name: &str) {
        self.name.as_str()
    }
}

} // verus!
