//! A half-duplex modem, and a handle that shares one between threads.
//!
//! ```text
//!                (Network side)
//!                       \|/
//!                        |  - Antenna
//!                        |
//!   +--------------------|-----------------+
//!   | Wireless Device  +-+-+               |
//!   |                  \   \               |
//!   |        +------>--+   +-->--+         |
//!   |        |                   |         |
//!   |        +-<-   to_ether  -<---+       |
//!   |                            | |       |
//!   |     ---<---   from_ether <-+ |       |
//!   |     |                        |       |
//!   |   TX pin                 RX pin      |
//!   +--------------------------------------+
//!        |      (Pins side)    |
//!        o                     o
//! ```

use crate::device::queue::{read_from_queue, write_to_queue};
use crate::device::state::{AntennaState, TickState};
use crate::device::traits::IODriverSimulator;
use crate::model::{DeviceModel, Duplex, Transceiver};
use core::convert::Infallible;
use std::collections::VecDeque;
use std::sync::Arc;
use vstd::prelude::*;
use vstd::rwlock::{RwLock, RwLockPredicate};

verus! {

/// The state of one half-duplex modem, owned by whoever holds the value.
pub struct WirelessModemCore {
    tick_state: TickState,
    from_antenna_buffer: VecDeque<u8>,
    to_antenna_buffer: VecDeque<u8>,
    antenna_state: AntennaState,
    name: String,
}

impl View for WirelessModemCore {
    type V = DeviceModel;

    closed spec fn view(&self) -> DeviceModel {
        DeviceModel {
            name: self.name@,
            in_tick: self.tick_state is InTick,
            link: Transceiver {
                duplex: Duplex::Half,
                transmitting: self.antenna_state.transmitting(),
                received: self.antenna_state.received(),
                from_network: self.from_antenna_buffer@,
                to_network: self.to_antenna_buffer@,
            },
        }
    }
}

impl WirelessModemCore {
    /// A modem off tick, idle, with empty queues.
    pub fn new(name: &str) -> (modem: Self)
        ensures
            modem@ == DeviceModel::fresh(name@, Duplex::Half),
    {
        WirelessModemCore {
            tick_state: TickState::OffTick,
            from_antenna_buffer: VecDeque::new(),
            to_antenna_buffer: VecDeque::new(),
            antenna_state: AntennaState::Idle,
            name: name.to_owned(),
        }
    }

    /// Every modem of this type is half-duplex, and never transmits and
    /// receives at once.
    pub proof fn lemma_half_duplex(&self)
        ensures
            self@.link.duplex is Half,
            self@.link.wf(),
    {
    }

    /// Fills `buf` from the front with the bytes that wait on the pin side and
    /// returns how many were read. The rest of `buf` is left as it was.
    pub fn read(&mut self, buf: &mut [u8]) -> (result: Result<usize, Infallible>)
        ensures
            result matches Ok(count) && count == old(self)@.read_count(old(buf)@.len()),
            final(self)@ == old(self)@.after_read(old(buf)@.len()),
            final(buf)@ == old(self)@.read_bytes(old(buf)@.len()) + old(buf)@.skip(
                old(self)@.read_count(old(buf)@.len()) as int,
            ),
    {
        Ok(read_from_queue(&mut self.from_antenna_buffer, buf))
    }

    /// Queues every byte of `buf` for transmission and returns how many were
    /// queued, which is all of them.
    pub fn write(&mut self, buf: &[u8]) -> (result: Result<usize, Infallible>)
        ensures
            result matches Ok(count) && count == buf@.len(),
            final(self)@ == old(self)@.after_write(buf@),
    {
        Ok(write_to_queue(&mut self.to_antenna_buffer, buf))
    }

    /// Nothing is buffered beyond the queues, so there is nothing to flush.
    pub fn flush(&self) -> (result: Result<(), Infallible>)
        ensures
            result == Ok::<(), Infallible>(()),
    {
        Ok(())
    }
}

impl IODriverSimulator for WirelessModemCore {
    fn get_from_device_network_side(&self) -> (byte: Option<u8>) {
        match self.tick_state {
            TickState::OffTick => None,
            TickState::InTick => match self.antenna_state {
                AntennaState::Transmit(byte) => Some(byte),
                _ => None,
            },
        }
    }

    fn put_to_device_network_side(&mut self, byte: u8) {
        match self.tick_state {
            TickState::OffTick => (),
            TickState::InTick => match self.antenna_state {
                AntennaState::Transmit(_) => (),
                AntennaState::Idle | AntennaState::Receive(_) => {
                    self.antenna_state = AntennaState::Receive(byte);
                },
            },
        }
    }

    fn get_from_tx_pin(&mut self) -> (byte: Option<u8>) {
        self.from_antenna_buffer.pop_front()
    }

    fn put_to_rx_pin(&mut self, byte: u8) {
        self.to_antenna_buffer.push_back(byte);
    }

    fn start_tick(&mut self) {
        match self.tick_state {
            TickState::OffTick => {
                self.antenna_state =
                match self.to_antenna_buffer.pop_front() {
                    Some(byte) => AntennaState::Transmit(byte),
                    _ => AntennaState::Idle,
                };
                self.tick_state = TickState::InTick;
            },
            TickState::InTick => (),
        }
    }

    fn end_tick(&mut self) {
        match self.tick_state {
            TickState::OffTick => (),
            TickState::InTick => {
                match self.antenna_state {
                    AntennaState::Receive(byte) => {
                        self.from_antenna_buffer.push_back(byte);
                    },
                    _ => (),
                }
                self.antenna_state = AntennaState::Idle;
                self.tick_state = TickState::OffTick;
            },
        }
    }

    fn readable(&self) -> (ready: bool) {
        self.from_antenna_buffer.len() > 0
    }

    fn writable(&self) -> (ready: bool) {
        true
    }

    fn get_name(&self) -> (name: &str) {
        self.name.as_str()
    }
}

/// What the lock of a shared modem lets in: a well-formed modem state that
/// carries the name the handles were made with.
struct ModemInvariant {
    name: Seq<char>,
}

impl RwLockPredicate<WirelessModemCore> for ModemInvariant {
    closed spec fn inv(self, core: WirelessModemCore) -> bool {
        core@.name == self.name && core@.wf()
    }
}

/// A handle to a half-duplex modem that several owners share: the protocol
/// layer on one thread, the ethers the modem is registered in on another.
///
/// Every operation locks the modem, performs the step of the same name on the
/// [`WirelessModemCore`] inside, and unlocks it. As other holders of the modem
/// may act between two calls, a call promises nothing about what the modem
/// held before or holds after; what each step does to the state it finds is
/// stated on [`WirelessModemCore`].
pub struct WirelessModemFake {
    shared_state: Arc<RwLock<WirelessModemCore, ModemInvariant>>,
    name: String,
}

impl WirelessModemFake {
    #[verifier::type_invariant]
    spec fn names_agree(self) -> bool {
        self.shared_state.pred().name == self.name@
    }

    /// The name this handle was made with.
    pub closed spec fn name(&self) -> Seq<char> {
        self.name@
    }

    /// A handle to a new modem that is off tick, idle, and has empty queues.
    pub fn new(name: &str) -> (modem: Self)
        ensures
            modem.name() == name@,
    {
        let core = WirelessModemCore::new(name);
        let lock = RwLock::new(core, Ghost(ModemInvariant { name: name@ }));
        WirelessModemFake { shared_state: Arc::new(lock), name: name.to_owned() }
    }

    /// Another handle to the same modem.
    pub fn clone(&self) -> (copy: Self)
        ensures
            copy == *self,
    {
        proof {
            use_type_invariant(self);
        }
        WirelessModemFake {
            shared_state: Arc::clone(&self.shared_state),
            name: self.name.clone(),
        }
    }

    /// Locks the modem and reads into `buf` as [`WirelessModemCore::read`]
    /// does. At most `buf.len()` bytes are read, and the part of `buf` behind
    /// them is left as it was.
    pub fn read(&self, buf: &mut [u8]) -> (result: Result<usize, Infallible>)
        ensures
            result matches Ok(count) && count <= old(buf)@.len() && final(buf)@.skip(count as int)
                == old(buf)@.skip(count as int),
            final(buf)@.len() == old(buf)@.len(),
    {
        proof {
            use_type_invariant(self);
        }
        let (mut core, guard) = self.shared_state.acquire_write();
        let ghost before = core@;
        let result = core.read(buf);
        guard.release_write(core);
        proof {
            let count = result->Ok_0 as int;
            let read = before.read_bytes(old(buf)@.len());
            assert(read.len() == count);
            assert((read + old(buf)@.skip(count)).skip(count) =~= old(buf)@.skip(count));
        }
        result
    }

    /// Locks the modem and queues all of `buf` as [`WirelessModemCore::write`]
    /// does.
    pub fn write(&self, buf: &[u8]) -> (result: Result<usize, Infallible>)
        ensures
            result matches Ok(count) && count == buf@.len(),
    {
        proof {
            use_type_invariant(self);
        }
        let (mut core, guard) = self.shared_state.acquire_write();
        let result = core.write(buf);
        guard.release_write(core);
        result
    }

    /// Nothing is buffered beyond the queues, so there is nothing to flush.
    pub fn flush(&self) -> (result: Result<(), Infallible>)
        ensures
            result == Ok::<(), Infallible>(()),
    {
        Ok(())
    }

    /// Locks the modem and reports the byte it broadcasts in the current tick.
    pub fn get_from_device_network_side(&self) -> (byte: Option<u8>) {
        let guard = self.shared_state.acquire_read();
        let byte = guard.borrow().get_from_device_network_side();
        guard.release_read();
        byte
    }

    /// Locks the modem and delivers a byte from the medium.
    pub fn put_to_device_network_side(&self, byte: u8) {
        proof {
            use_type_invariant(self);
        }
        let (mut core, guard) = self.shared_state.acquire_write();
        core.put_to_device_network_side(byte);
        guard.release_write(core);
    }

    /// Locks the modem and takes the oldest byte that arrived from the medium.
    pub fn get_from_tx_pin(&self) -> (byte: Option<u8>) {
        proof {
            use_type_invariant(self);
        }
        let (mut core, guard) = self.shared_state.acquire_write();
        let byte = core.get_from_tx_pin();
        guard.release_write(core);
        byte
    }

    /// Locks the modem and queues a byte for transmission.
    pub fn put_to_rx_pin(&self, byte: u8) {
        proof {
            use_type_invariant(self);
        }
        let (mut core, guard) = self.shared_state.acquire_write();
        core.put_to_rx_pin(byte);
        guard.release_write(core);
    }

    /// Locks the modem and starts a tick on it.
    pub fn start_tick(&self) {
        proof {
            use_type_invariant(self);
        }
        let (mut core, guard) = self.shared_state.acquire_write();
        core.start_tick();
        guard.release_write(core);
    }

    /// Locks the modem and ends the tick on it.
    pub fn end_tick(&self) {
        proof {
            use_type_invariant(self);
        }
        let (mut core, guard) = self.shared_state.acquire_write();
        core.end_tick();
        guard.release_write(core);
    }

    /// Locks the modem and reports whether a byte waits to be read.
    pub fn readable(&self) -> (ready: bool) {
        let guard = self.shared_state.acquire_read();
        let ready = guard.borrow().readable();
        guard.release_read();
        ready
    }

    /// Whether a byte can be queued: always, as the queues are unbounded.
    pub fn writable(&self) -> (ready: bool)
        ensures
            ready,
    {
        true
    }

    /// The name under which a registry finds this modem.
    pub fn get_name(&self) -> (name: &str)
        ensures
            name@ == self.name(),
    {
        self.name.as_str()
    }

    /// Whether this modem goes by `name`.
    pub fn is_named(&self, name: &String) -> (named: bool)
        ensures
            named == (self.name() == name@),
    {
        self.name == *name
    }
}

} // verus!
