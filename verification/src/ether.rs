//! The shared medium: collision arbitration and fan-out for one tick.
//!
//! Within a tick the medium carries at most one byte. Every modem that
//! transmits puts its byte on the medium, and a later modem overwrites an
//! earlier one, so the byte that stays is the one of the last transmitter in
//! the order of registration. That byte is then offered to every modem, the
//! transmitters included; whether a modem takes it is the modem's business.

use crate::device::traits::IODriverSimulator;
use crate::model::DeviceModel;
use vstd::prelude::*;

verus! {

/// The running result of the collision arbitration: a modem that transmits
/// overwrites whatever was on the medium before it.
pub open spec fn overwritten(current: Option<u8>, seen: Option<u8>) -> Option<u8> {
    if seen is Some {
        seen
    } else {
        current
    }
}

/// One step of the collision arbitration, see [`overwritten`].
pub fn overwrite(current: Option<u8>, seen: Option<u8>) -> (result: Option<u8>)
    ensures
        result == overwritten(current, seen),
{
    match seen {
        Some(byte) => Some(byte),
        None => current,
    }
}

/// The collision arbitration over what the modems report, in the order of
/// registration: every report of a byte overwrites the medium, so what stays
/// is the last byte reported, or nothing if no modem reported one.
pub open spec fn arbitrated(seen: Seq<Option<u8>>) -> Option<u8>
    decreases seen.len(),
{
    if seen.len() == 0 {
        None
    } else {
        overwritten(arbitrated(seen.drop_last()), seen.last())
    }
}

/// The byte on the medium, given what each modem reported when it was asked,
/// in the order of registration.
pub fn arbitrate(seen: &Vec<Option<u8>>) -> (current: Option<u8>)
    ensures
        current == arbitrated(seen@),
{
    let mut result: Option<u8> = None;
    let count: usize = seen.len();
    let mut i: usize = 0;
    while i < count
        invariant
            count == seen@.len(),
            i <= count,
            result == arbitrated(seen@.take(i as int)),
        decreases count - i,
    {
        result = overwrite(result, seen[i]);
        i += 1;
        assert(seen@.take(i as int).drop_last() =~= seen@.take(i - 1));
    }
    assert(seen@.take(count as int) =~= seen@);
    result
}

/// What each modem puts on the medium, in the order of registration.
pub open spec fn reports(devices: Seq<DeviceModel>) -> Seq<Option<u8>> {
    devices.map_values(|device: DeviceModel| device.on_air())
}

/// The byte on the medium: what is left when every modem, in the order of
/// registration, has overwritten the medium with the byte it transmits.
pub open spec fn current_byte(devices: Seq<DeviceModel>) -> Option<u8>
    decreases devices.len(),
{
    if devices.len() == 0 {
        None
    } else {
        overwritten(current_byte(devices.drop_last()), devices.last().on_air())
    }
}

/// Every modem after the start of a tick.
pub open spec fn started(devices: Seq<DeviceModel>) -> Seq<DeviceModel> {
    devices.map_values(|device: DeviceModel| device.start_tick())
}

/// Every modem after the end of a tick.
pub open spec fn ended(devices: Seq<DeviceModel>) -> Seq<DeviceModel> {
    devices.map_values(|device: DeviceModel| device.end_tick())
}

/// Every modem after the medium has offered it `byte`.
pub open spec fn delivered(devices: Seq<DeviceModel>, byte: u8) -> Seq<DeviceModel> {
    devices.map_values(|device: DeviceModel| device.hear(byte))
}

/// Every modem after the medium has settled: if a byte is on the medium, it
/// was offered to all of them; if none is, nothing happened.
pub open spec fn settled(devices: Seq<DeviceModel>) -> Seq<DeviceModel> {
    match current_byte(devices) {
        Some(byte) => delivered(devices, byte),
        None => devices,
    }
}

/// Every modem after one whole tick: start, settle, end.
pub open spec fn ticked(devices: Seq<DeviceModel>) -> Seq<DeviceModel> {
    ended(settled(started(devices)))
}

/// A medium and the modems attached to it, in the order of registration.
pub struct Ether<IODrv: IODriverSimulator> {
    pub devices: Vec<IODrv>,
}

impl<IODrv: IODriverSimulator> View for Ether<IODrv> {
    type V = Seq<DeviceModel>;

    open spec fn view(&self) -> Seq<DeviceModel> {
        self.devices@.map_values(|device: IODrv| device@)
    }
}

impl<IODrv: IODriverSimulator> Ether<IODrv> {
    /// The medium between `devices`.
    pub fn new(devices: Vec<IODrv>) -> (ether: Self)
        ensures
            ether.devices == devices,
    {
        Self { devices }
    }

    /// Attaches one more modem behind those already attached.
    pub fn add_device(&mut self, device: IODrv)
        ensures
            final(self).devices@ == old(self).devices@.push(device),
            final(self)@ == old(self)@.push(device@),
    {
        self.devices.push(device);
        assert(self@ =~= old(self)@.push(device@));
    }

    /// The byte on the medium in this tick: the one broadcast by the last
    /// attached modem that transmits, or none if no modem transmits.
    pub fn get_current_byte(&self) -> (current: Option<u8>)
        ensures
            current == current_byte(self@),
    {
        let mut result: Option<u8> = None;
        let count: usize = self.devices.len();
        let mut i: usize = 0;
        while i < count
            invariant
                count == self.devices@.len(),
                i <= count,
                result == current_byte(self@.take(i as int)),
            decreases count - i,
        {
            let seen = self.devices[i].get_from_device_network_side();
            result = overwrite(result, seen);
            i += 1;
            assert(self@.take(i as int).drop_last() =~= self@.take(i - 1));
        }
        assert(self@.take(count as int) =~= self@);
        result
    }

    /// Starts a tick on every attached modem.
    pub fn start_tick(&mut self)
        ensures
            final(self)@ == started(old(self)@),
    {
        let count: usize = self.devices.len();
        let mut i: usize = 0;
        while i < count
            invariant
                count == self.devices@.len(),
                count == old(self).devices@.len(),
                i <= count,
                forall|j: int| 0 <= j < i ==> (#[trigger] self.devices@[j])@ == old(
                    self,
                ).devices@[j]@.start_tick(),
                forall|j: int| i <= j < count ==> #[trigger] self.devices@[j] == old(
                    self,
                ).devices@[j],
            decreases count - i,
        {
            self.devices[i].start_tick();
            i += 1;
        }
        assert(self@ =~= started(old(self)@));
    }

    /// Ends the tick on every attached modem.
    pub fn end_tick(&mut self)
        ensures
            final(self)@ == ended(old(self)@),
    {
        let count: usize = self.devices.len();
        let mut i: usize = 0;
        while i < count
            invariant
                count == self.devices@.len(),
                count == old(self).devices@.len(),
                i <= count,
                forall|j: int| 0 <= j < i ==> (#[trigger] self.devices@[j])@ == old(
                    self,
                ).devices@[j]@.end_tick(),
                forall|j: int| i <= j < count ==> #[trigger] self.devices@[j] == old(
                    self,
                ).devices@[j],
            decreases count - i,
        {
            self.devices[i].end_tick();
            i += 1;
        }
        assert(self@ =~= ended(old(self)@));
    }

    /// Settles the medium for one tick: finds the byte on it and, if there is
    /// one, offers it to every attached modem, the transmitters included.
    /// Starts and ends no tick.
    pub fn simulate(&mut self)
        ensures
            final(self)@ == settled(old(self)@),
    {
        if let Some(current_byte) = self.get_current_byte() {
            let count: usize = self.devices.len();
            let mut i: usize = 0;
            while i < count
                invariant
                    count == self.devices@.len(),
                    count == old(self).devices@.len(),
                    i <= count,
                    forall|j: int| 0 <= j < i ==> (#[trigger] self.devices@[j])@ == old(
                        self,
                    ).devices@[j]@.hear(current_byte),
                    forall|j: int| i <= j < count ==> #[trigger] self.devices@[j] == old(
                        self,
                    ).devices@[j],
                decreases count - i,
            {
                self.devices[i].put_to_device_network_side(current_byte);
                i += 1;
            }
            assert(self@ =~= delivered(old(self)@, current_byte));
        }
    }

    /// One whole tick: start, settle, end.
    pub fn update(&mut self)
        ensures
            final(self)@ == ticked(old(self)@),
    {
        self.start_tick();
        self.simulate();
        self.end_tick();
    }
}

/// The last transmitter wins: if the modem at `last` transmits and no modem
/// behind it does, the byte on the medium is the one it transmits, whatever
/// the modems before it put there, and settling the medium offers that byte
/// to every modem.
pub proof fn lemma_last_transmitter_wins(devices: Seq<DeviceModel>, last: int)
    requires
        0 <= last < devices.len(),
        devices[last].on_air() is Some,
        forall|later: int| last < later < devices.len() ==> devices[later].on_air() is None,
    ensures
        current_byte(devices) == devices[last].on_air(),
        settled(devices) == delivered(devices, devices[last].on_air()->0),
    decreases devices.len(),
{
    if last < devices.len() - 1 {
        lemma_last_transmitter_wins(devices.drop_last(), last);
    }
}

/// A silent medium stays silent: if no modem transmits, there is no byte on
/// the medium, and settling it changes no modem.
pub proof fn lemma_silence(devices: Seq<DeviceModel>)
    requires
        forall|at: int| 0 <= at < devices.len() ==> devices[at].on_air() is None,
    ensures
        current_byte(devices) is None,
        settled(devices) == devices,
    decreases devices.len(),
{
    if devices.len() > 0 {
        lemma_silence(devices.drop_last());
    }
}

/// A byte on the medium comes from a transmitter: whenever the medium
/// carries a byte, some modem transmits exactly that byte and no modem
/// behind it transmits.
pub proof fn lemma_current_byte_has_a_source(devices: Seq<DeviceModel>) -> (last: int)
    requires
        current_byte(devices) is Some,
    ensures
        0 <= last < devices.len(),
        devices[last].on_air() == current_byte(devices),
        forall|later: int| last < later < devices.len() ==> devices[later].on_air() is None,
    decreases devices.len(),
{
    if devices.last().on_air() is Some {
        devices.len() - 1
    } else {
        let front = devices.drop_last();
        let last = lemma_current_byte_has_a_source(front);
        assert forall|later: int| last < later < devices.len() implies devices[later].on_air()
            is None by {
            if later < front.len() {
                assert(front[later] == devices[later]);
            }
        }
        last
    }
}

/// Settling the medium starts and ends no tick and moves no queue: of each
/// modem it changes at most the byte heard in this tick.
pub proof fn lemma_settling_only_offers(devices: Seq<DeviceModel>, at: int)
    requires
        0 <= at < devices.len(),
    ensures
        settled(devices).len() == devices.len(),
        settled(devices)[at].name == devices[at].name,
        settled(devices)[at].in_tick == devices[at].in_tick,
        settled(devices)[at].on_air() == devices[at].on_air(),
        settled(devices)[at].link.from_network == devices[at].link.from_network,
        settled(devices)[at].link.to_network == devices[at].link.to_network,
{
}

/// The last report wins: if the report at `last` names a byte and no later
/// report names one, the arbitration gives that byte, whatever was reported
/// before.
pub proof fn lemma_last_report_wins(seen: Seq<Option<u8>>, last: int)
    requires
        0 <= last < seen.len(),
        seen[last] is Some,
        forall|later: int| last < later < seen.len() ==> seen[later] is None,
    ensures
        arbitrated(seen) == seen[last],
    decreases seen.len(),
{
    if last < seen.len() - 1 {
        lemma_last_report_wins(seen.drop_last(), last);
    }
}

/// Where no modem reports a byte, the arbitration gives none.
pub proof fn lemma_no_report_no_byte(seen: Seq<Option<u8>>)
    requires
        forall|at: int| 0 <= at < seen.len() ==> seen[at] is None,
    ensures
        arbitrated(seen) is None,
    decreases seen.len(),
{
    if seen.len() > 0 {
        lemma_no_report_no_byte(seen.drop_last());
    }
}

/// The byte on the medium is the arbitration over what the modems put on it.
pub proof fn lemma_current_byte_is_arbitrated(devices: Seq<DeviceModel>)
    ensures
        current_byte(devices) == arbitrated(reports(devices)),
    decreases devices.len(),
{
    if devices.len() > 0 {
        lemma_current_byte_is_arbitrated(devices.drop_last());
        assert(reports(devices).drop_last() =~= reports(devices.drop_last()));
    }
}

} // verus!
