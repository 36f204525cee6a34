//! Mathematical model of a simulated modem.
//!
//! A [`Transceiver`] describes what a modem does within one tick: which byte it
//! broadcasts, which byte it has heard, and the two queues that connect it to
//! the protocol layer. A [`DeviceModel`] adds the name of the modem and the
//! gate that makes a tick start and end at most once.

use crate::device::queue::readable_count;
use vstd::prelude::*;

verus! {

/// Whether a modem can hear the medium while it transmits.
pub enum Duplex {
    /// An antenna: within one tick the modem either transmits or receives.
    Half,
    /// A wired link: the modem transmits and receives independently.
    Full,
}

/// The state of a modem that is not gated by a tick flag.
pub struct Transceiver {
    pub duplex: Duplex,
    /// The byte broadcast during the current tick.
    pub transmitting: Option<u8>,
    /// The byte heard from the medium during the current tick.
    pub received: Option<u8>,
    /// Bytes that arrived from the medium and wait for the protocol layer.
    pub from_network: Seq<u8>,
    /// Bytes queued by the protocol layer that wait for transmission.
    pub to_network: Seq<u8>,
}

impl Transceiver {
    /// A modem with empty queues that neither transmits nor receives.
    pub open spec fn idle(duplex: Duplex) -> Transceiver {
        Transceiver {
            duplex,
            transmitting: None,
            received: None,
            from_network: Seq::empty(),
            to_network: Seq::empty(),
        }
    }

    /// A half-duplex modem never transmits and receives in the same tick.
    pub open spec fn wf(self) -> bool {
        self.duplex is Half ==> self.transmitting is None || self.received is None
    }

    /// The byte this modem puts on the medium.
    pub open spec fn on_air(self) -> Option<u8> {
        self.transmitting
    }

    /// Whether a byte offered by the medium is accepted.
    pub open spec fn can_hear(self) -> bool {
        self.duplex is Full || self.transmitting is None
    }

    /// The medium offers `byte`: the last byte offered in a tick is the one kept,
    /// and a transmitting half-duplex modem keeps none.
    pub open spec fn hear(self, byte: u8) -> Transceiver {
        if self.can_hear() {
            Transceiver { received: Some(byte), ..self }
        } else {
            self
        }
    }

    /// The protocol layer queues `byte` for transmission.
    pub open spec fn enqueue(self, byte: u8) -> Transceiver {
        Transceiver { to_network: self.to_network.push(byte), ..self }
    }

    /// The byte the protocol layer reads next, if any.
    pub open spec fn next_byte(self) -> Option<u8> {
        if self.from_network.len() > 0 {
            Some(self.from_network[0])
        } else {
            None
        }
    }

    /// The protocol layer has read one byte.
    pub open spec fn dequeue(self) -> Transceiver {
        if self.from_network.len() > 0 {
            Transceiver { from_network: self.from_network.drop_first(), ..self }
        } else {
            self
        }
    }

    /// Whether the protocol layer has a byte to read.
    pub open spec fn readable(self) -> bool {
        self.from_network.len() > 0
    }

    /// A tick begins: the oldest queued byte, if any, goes on air, and whatever
    /// was heard before is forgotten.
    pub open spec fn begin_tick(self) -> Transceiver {
        if self.to_network.len() > 0 {
            Transceiver {
                transmitting: Some(self.to_network[0]),
                received: None,
                to_network: self.to_network.drop_first(),
                ..self
            }
        } else {
            Transceiver { transmitting: None, received: None, ..self }
        }
    }

    /// A tick ends: the byte heard, if any, is stored for the protocol layer,
    /// and the modem falls idle.
    pub open spec fn finish_tick(self) -> Transceiver {
        Transceiver {
            transmitting: None,
            received: None,
            from_network: match self.received {
                Some(byte) => self.from_network.push(byte),
                None => self.from_network,
            },
            ..self
        }
    }
}

/// The state of a named modem whose ticks are gated: starting a tick twice, or
/// ending it twice, has no effect the second time.
pub struct DeviceModel {
    pub name: Seq<char>,
    /// Whether a tick has started and not yet ended.
    pub in_tick: bool,
    pub link: Transceiver,
}

impl DeviceModel {
    /// A modem as its constructor leaves it: off tick, idle, with empty queues.
    pub open spec fn fresh(name: Seq<char>, duplex: Duplex) -> DeviceModel {
        DeviceModel { name, in_tick: false, link: Transceiver::idle(duplex) }
    }

    /// Outside a tick a modem neither transmits nor holds a heard byte.
    pub open spec fn wf(self) -> bool {
        &&& self.link.wf()
        &&& !self.in_tick ==> self.link.transmitting is None && self.link.received is None
    }

    /// The byte this modem puts on the medium: none outside a tick.
    pub open spec fn on_air(self) -> Option<u8> {
        if self.in_tick {
            self.link.on_air()
        } else {
            None
        }
    }

    /// The medium offers `byte`: ignored outside a tick, and otherwise handled
    /// as the duplex mode says.
    pub open spec fn hear(self, byte: u8) -> DeviceModel {
        if self.in_tick {
            DeviceModel { link: self.link.hear(byte), ..self }
        } else {
            self
        }
    }

    /// The protocol layer queues `byte` for transmission.
    pub open spec fn enqueue(self, byte: u8) -> DeviceModel {
        DeviceModel { link: self.link.enqueue(byte), ..self }
    }

    /// The byte the protocol layer reads next, if any.
    pub open spec fn next_byte(self) -> Option<u8> {
        self.link.next_byte()
    }

    /// The protocol layer has read one byte.
    pub open spec fn dequeue(self) -> DeviceModel {
        DeviceModel { link: self.link.dequeue(), ..self }
    }

    /// Whether the protocol layer has a byte to read.
    pub open spec fn readable(self) -> bool {
        self.link.readable()
    }

    /// A tick starts, unless one is already under way.
    pub open spec fn start_tick(self) -> DeviceModel {
        if self.in_tick {
            self
        } else {
            DeviceModel { in_tick: true, link: self.link.begin_tick(), ..self }
        }
    }

    /// The tick under way ends, if there is one.
    pub open spec fn end_tick(self) -> DeviceModel {
        if self.in_tick {
            DeviceModel { in_tick: false, link: self.link.finish_tick(), ..self }
        } else {
            self
        }
    }

    /// The medium offers the bytes of `offered`, one after the other.
    pub open spec fn hear_all(self, offered: Seq<u8>) -> DeviceModel
        decreases offered.len(),
    {
        if offered.len() == 0 {
            self
        } else {
            self.hear_all(offered.drop_last()).hear(offered.last())
        }
    }

    /// One whole tick, during which the medium offers `heard`, if anything.
    pub open spec fn tick_hearing(self, heard: Option<u8>) -> DeviceModel {
        match heard {
            Some(byte) => self.start_tick().hear(byte).end_tick(),
            None => self.start_tick().end_tick(),
        }
    }

    /// One whole tick for each entry of `heard`, during which the medium
    /// offers that entry.
    pub open spec fn ticks_hearing(self, heard: Seq<Option<u8>>) -> DeviceModel
        decreases heard.len(),
    {
        if heard.len() == 0 {
            self
        } else {
            self.ticks_hearing(heard.drop_last()).tick_hearing(heard.last())
        }
    }

    /// The protocol layer reads up to `limit` bytes: the bytes read.
    pub open spec fn read_bytes(self, limit: nat) -> Seq<u8> {
        self.link.from_network.take(self.read_count(limit) as int)
    }

    /// The number of bytes a read of up to `limit` bytes delivers: as many as
    /// wait on the pin side, but no more than `limit`.
    pub open spec fn read_count(self, limit: nat) -> nat {
        readable_count(self.link.from_network, limit)
    }

    /// The modem after the protocol layer has read up to `limit` bytes.
    pub open spec fn after_read(self, limit: nat) -> DeviceModel {
        DeviceModel {
            link: Transceiver {
                from_network: self.link.from_network.skip(self.read_count(limit) as int),
                ..self.link
            },
            ..self
        }
    }

    /// The modem after the protocol layer has queued all of `bytes`.
    pub open spec fn after_write(self, bytes: Seq<u8>) -> DeviceModel {
        DeviceModel {
            link: Transceiver { to_network: self.link.to_network + bytes, ..self.link },
            ..self
        }
    }
}

/// Every step keeps a well-formed modem well-formed.
pub proof fn lemma_steps_keep_wf(device: DeviceModel, byte: u8)
    requires
        device.wf(),
    ensures
        device.start_tick().wf(),
        device.hear(byte).wf(),
        device.end_tick().wf(),
        device.enqueue(byte).wf(),
        device.dequeue().wf(),
{
}

/// The tick phases are idempotent: starting a tick that is under way, or
/// ending a tick that has ended, changes nothing.
pub proof fn lemma_tick_phases_are_idempotent(device: DeviceModel)
    ensures
        device.start_tick().start_tick() == device.start_tick(),
        device.end_tick().end_tick() == device.end_tick(),
{
}

/// Of two bytes that the medium offers one after the other, the second
/// overwrites the first.
pub proof fn lemma_last_offer_wins(device: DeviceModel, first: u8, second: u8)
    ensures
        device.hear(first).hear(second) == device.hear(second),
{
}

/// Self-suppression: a half-duplex modem that transmits in a tick ignores
/// whatever the medium offers it in that tick, however often, and when the
/// tick ends the bytes stored for the protocol layer are those stored before.
pub proof fn lemma_transmitter_ignores_medium(device: DeviceModel, offered: Seq<u8>)
    requires
        device.link.wf(),
        device.link.duplex is Half,
        device.on_air() is Some,
    ensures
        device.hear_all(offered) == device,
        device.hear_all(offered).end_tick().link.from_network == device.link.from_network,
    decreases offered.len(),
{
    if offered.len() > 0 {
        lemma_transmitter_ignores_medium(device, offered.drop_last());
    }
}

/// Self-suppression for a modem without a tick gate: a half-duplex
/// transceiver that transmits ignores a byte from the medium, and when the
/// tick ends the bytes stored for the protocol layer are those stored before.
pub proof fn lemma_transmitting_transceiver_ignores_medium(link: Transceiver, byte: u8)
    requires
        link.wf(),
        link.duplex is Half,
        link.on_air() is Some,
    ensures
        link.hear(byte) == link,
        link.hear(byte).finish_tick().from_network == link.from_network,
{
}

/// Full-duplex simultaneity: a full-duplex modem that starts a tick with a
/// byte queued broadcasts that byte during the tick even though the medium
/// offers it `heard` meanwhile, and when the tick ends `heard` is the newest
/// byte stored for the protocol layer: the one read next if none was stored
/// before.
pub proof fn lemma_full_duplex_sends_and_receives(device: DeviceModel, heard: u8)
    requires
        device.link.duplex is Full,
        !device.in_tick,
        device.link.to_network.len() > 0,
    ensures
        device.start_tick().hear(heard).on_air() == Some(device.link.to_network[0]),
        device.start_tick().hear(heard).end_tick().link.from_network
            == device.link.from_network.push(heard),
        device.link.from_network.len() == 0 ==> device.start_tick().hear(
            heard,
        ).end_tick().next_byte() == Some(heard),
{
}

/// Whole ticks leave a modem off tick and take one byte per tick from the
/// front of the transmit queue, whatever the medium offers.
pub proof fn lemma_ticks_consume_queue(device: DeviceModel, heard: Seq<Option<u8>>)
    requires
        !device.in_tick,
        heard.len() <= device.link.to_network.len(),
    ensures
        !device.ticks_hearing(heard).in_tick,
        device.ticks_hearing(heard).link.to_network == device.link.to_network.skip(
            heard.len() as int,
        ),
    decreases heard.len(),
{
    if heard.len() == 0 {
        assert(device.link.to_network.skip(0) =~= device.link.to_network);
    } else {
        let before = heard.drop_last();
        lemma_ticks_consume_queue(device, before);
        let queue = device.link.to_network;
        assert(queue.skip(before.len() as int).drop_first() =~= queue.skip(heard.len() as int));
    }
}

/// First in, first out: bytes go on air in the order in which the protocol
/// layer queued them, one per tick. After as many whole ticks as `heard` has
/// entries, whatever the medium offered in them, the next tick broadcasts the
/// byte that stood at that place in the transmit queue.
pub proof fn lemma_transmits_in_queue_order(device: DeviceModel, heard: Seq<Option<u8>>)
    requires
        !device.in_tick,
        heard.len() < device.link.to_network.len(),
    ensures
        device.ticks_hearing(heard).start_tick().on_air() == Some(
            device.link.to_network[heard.len() as int],
        ),
{
    lemma_ticks_consume_queue(device, heard);
}

/// A modem attached to two mediums broadcasts the same byte into both: in
/// one tick of a network both mediums start the tick on it, of which the
/// second start changes nothing, and whatever the first medium offers it
/// before the second one settles leaves the byte it has on air untouched.
pub proof fn lemma_shared_modem_transmits_alike(device: DeviceModel, offered: Seq<u8>)
    ensures
        device.start_tick().start_tick().hear_all(offered).on_air()
            == device.start_tick().on_air(),
    decreases offered.len(),
{
    if offered.len() > 0 {
        lemma_shared_modem_transmits_alike(device, offered.drop_last());
    }
}

} // verus!
