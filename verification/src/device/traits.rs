//! The operations every gated modem offers.

use crate::model::DeviceModel;
use vstd::prelude::*;

verus! {

/// A simulated modem between a protocol layer (the pin side) and a shared
/// medium (the network side). Every operation is a step of [`DeviceModel`].
pub trait IODriverSimulator: View<V = DeviceModel> {
    /// The byte this modem broadcasts in the current tick, if any.
    fn get_from_device_network_side(&self) -> (byte: Option<u8>)
        ensures
            byte == self@.on_air(),
    ;

    /// Delivers a byte from the medium. Of several bytes delivered in one tick
    /// the last one is kept.
    fn put_to_device_network_side(&mut self, byte: u8)
        ensures
            final(self)@ == old(self)@.hear(byte),
    ;

    /// Takes the oldest byte that arrived from the medium.
    fn get_from_tx_pin(&mut self) -> (byte: Option<u8>)
        ensures
            byte == old(self)@.next_byte(),
            final(self)@ == old(self)@.dequeue(),
    ;

    /// Queues a byte for transmission.
    fn put_to_rx_pin(&mut self, byte: u8)
        ensures
            final(self)@ == old(self)@.enqueue(byte),
    ;

    /// Starts a tick: the oldest queued byte, if any, goes on air.
    fn start_tick(&mut self)
        ensures
            final(self)@ == old(self)@.start_tick(),
    ;

    /// Ends the tick: the byte heard, if any, becomes readable on the pin side.
    fn end_tick(&mut self)
        ensures
            final(self)@ == old(self)@.end_tick(),
    ;

    /// Whether a byte from the medium waits to be read.
    fn readable(&self) -> (ready: bool)
        ensures
            ready == self@.readable(),
    ;

    /// Whether a byte can be queued: always, as the queues are unbounded.
    fn writable(&self) -> (ready: bool)
        ensures
            ready,
    ;

    /// The name under which a registry finds this modem.
    fn get_name(&self) -> (name: &str)
        ensures
            name@ == self@.name,
    ;
}

} // verus!
