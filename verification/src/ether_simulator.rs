//! A named coverage zone: a registry of shared modems and the medium between
//! them.
//!
//! The registry is a [`DriverRegistry`], owned by whoever holds the value. An
//! [`EtherSimulator`] is a named handle to one registry behind a lock: every
//! clone of it reaches the same registry, so the topology can change through
//! one handle while another one ticks.

use crate::device::wireless_modem::WirelessModemFake;
use crate::ether::arbitrate;
use std::sync::Arc;
use vstd::prelude::*;
use vstd::rwlock::{RwLock, RwLockPredicate};

verus! {

/// Whether `drivers[at]` is the first modem that goes by `name`.
pub open spec fn first_named(drivers: Seq<WirelessModemFake>, name: Seq<char>, at: int) -> bool {
    &&& 0 <= at < drivers.len()
    &&& drivers[at].name() == name
    &&& forall|earlier: int| 0 <= earlier < at ==> drivers[earlier].name() != name
}

/// Whether some modem in `drivers` goes by `name`.
pub open spec fn has_named(drivers: Seq<WirelessModemFake>, name: Seq<char>) -> bool {
    exists|at: int| 0 <= at < drivers.len() && drivers[at].name() == name
}

/// What is left of `drivers` once every modem that goes by `name` is taken
/// out: the others, in their order.
pub open spec fn without_named(drivers: Seq<WirelessModemFake>, name: Seq<char>) -> Seq<
    WirelessModemFake,
> {
    drivers.filter(named_otherwise(name))
}

/// The test that a modem passes when it does not go by `name`.
pub open spec fn named_otherwise(name: Seq<char>) -> spec_fn(WirelessModemFake) -> bool {
    |driver: WirelessModemFake| driver.name() != name
}

proof fn lemma_filter_keeps_all<T>(items: Seq<T>, keep: spec_fn(T) -> bool)
    requires
        forall|i: int| 0 <= i < items.len() ==> keep(items[i]),
    ensures
        items.filter(keep) == items,
    decreases items.len(),
{
    reveal(Seq::filter);
    if items.len() > 0 {
        lemma_filter_keeps_all(items.drop_last(), keep);
        assert(items.drop_last().push(items.last()) =~= items);
    }
}

proof fn lemma_filter_ignores_removed<T>(items: Seq<T>, keep: spec_fn(T) -> bool, at: int)
    requires
        0 <= at < items.len(),
        !keep(items[at]),
    ensures
        items.remove(at).filter(keep) == items.filter(keep),
{
    let front = items.take(at);
    let gone = seq![items[at]];
    let back = items.skip(at + 1);
    assert(items =~= front + gone + back);
    assert(items.remove(at) =~= front + back);
    Seq::filter_distributes_over_add(front + gone, back, keep);
    Seq::filter_distributes_over_add(front, gone, keep);
    Seq::filter_distributes_over_add(front, back, keep);
    reveal_with_fuel(Seq::filter, 2);
    assert(gone.drop_last() =~= Seq::<T>::empty());
    assert(gone.filter(keep) =~= Seq::<T>::empty());
    assert(front.filter(keep) + gone.filter(keep) =~= front.filter(keep));
}

/// The modems of one coverage zone, in the order of their registration.
///
/// The list belongs to whoever holds the value; the modems in it are shared,
/// each behind its own lock, so what a modem holds is not part of the view.
pub struct DriverRegistry {
    devices: Vec<WirelessModemFake>,
}

impl View for DriverRegistry {
    type V = Seq<WirelessModemFake>;

    closed spec fn view(&self) -> Seq<WirelessModemFake> {
        self.devices@
    }
}

impl DriverRegistry {
    /// A registry without modems.
    pub fn new() -> (registry: Self)
        ensures
            registry@ == Seq::<WirelessModemFake>::empty(),
    {
        DriverRegistry { devices: Vec::new() }
    }

    /// Registers a modem behind those already registered.
    pub fn register_driver(&mut self, driver: WirelessModemFake)
        ensures
            final(self)@ == old(self)@.push(driver),
    {
        self.devices.push(driver);
    }

    /// Takes every modem that goes by `name` out of the registry. The others
    /// keep their order; a name that is not registered changes nothing.
    pub fn unregister_driver(&mut self, name: &str)
        ensures
            final(self)@ == without_named(old(self)@, name@),
    {
        let key: String = name.to_owned();
        let ghost keep = named_otherwise(name@);
        loop
            invariant
                key@ == name@,
                keep == named_otherwise(name@),
                self.devices@.filter(keep) == old(self).devices@.filter(keep),
            ensures
                self.devices@ == old(self).devices@.filter(keep),
            decreases self.devices@.len(),
        {
            let mut index_to_remove: Option<usize> = None;
            let count: usize = self.devices.len();
            let mut i: usize = 0;
            while i < count
                invariant
                    count == self.devices@.len(),
                    i <= count,
                    key@ == name@,
                    match index_to_remove {
                        Some(at) => at < i && self.devices@[at as int].name() == name@,
                        None => forall|j: int| 0 <= j < i ==> self.devices@[j].name() != name@,
                    },
                decreases count - i,
            {
                if self.devices[i].is_named(&key) {
                    index_to_remove = Some(i);
                }
                i += 1;
            }
            match index_to_remove {
                Some(at) => {
                    proof {
                        lemma_filter_ignores_removed(self.devices@, keep, at as int);
                    }
                    self.devices.remove(at);
                },
                None => {
                    proof {
                        lemma_filter_keeps_all(self.devices@, keep);
                    }
                    break ;
                },
            }
        }
    }

    /// Another handle to the first registered modem that goes by `name`.
    pub fn get_driver(&self, name: &str) -> (found: Option<WirelessModemFake>)
        ensures
            match found {
                Some(driver) => exists|at: int|
                    first_named(self@, name@, at) && driver == self@[at],
                None => !has_named(self@, name@),
            },
    {
        let key: String = name.to_owned();
        let count: usize = self.devices.len();
        let mut i: usize = 0;
        while i < count
            invariant
                count == self.devices@.len(),
                i <= count,
                key@ == name@,
                forall|j: int| 0 <= j < i ==> self.devices@[j].name() != name@,
            decreases count - i,
        {
            if self.devices[i].is_named(&key) {
                assert(first_named(self@, name@, i as int));
                return Some(self.devices[i].clone());
            }
            i += 1;
        }
        None
    }

    /// Asks every registered modem, once and in the order of registration,
    /// for the byte it broadcasts in this tick. What a modem reports is
    /// whatever it holds when it is asked.
    pub fn observe(&self) -> (seen: Vec<Option<u8>>)
        ensures
            seen@.len() == self@.len(),
    {
        let mut seen: Vec<Option<u8>> = Vec::new();
        let count: usize = self.devices.len();
        let mut i: usize = 0;
        while i < count
            invariant
                count == self.devices@.len(),
                i <= count,
                seen@.len() == i,
            decreases count - i,
        {
            seen.push(self.devices[i].get_from_device_network_side());
            i += 1;
        }
        seen
    }

    /// The byte on the medium in this tick: the arbitration over what the
    /// registered modems report, see [`arbitrate`]. Without modems there is
    /// none.
    pub fn get_current_byte(&self) -> (current: Option<u8>)
        ensures
            self@.len() == 0 ==> current is None,
    {
        let seen = self.observe();
        arbitrate(&seen)
    }

    /// Starts a tick on every registered modem, in the order of registration.
    pub fn start_tick(&self) {
        let count: usize = self.devices.len();
        let mut i: usize = 0;
        while i < count
            invariant
                count == self.devices@.len(),
                i <= count,
            decreases count - i,
        {
            self.devices[i].start_tick();
            i += 1;
        }
    }

    /// Ends the tick on every registered modem, in the order of registration.
    pub fn end_tick(&self) {
        let count: usize = self.devices.len();
        let mut i: usize = 0;
        while i < count
            invariant
                count == self.devices@.len(),
                i <= count,
            decreases count - i,
        {
            self.devices[i].end_tick();
            i += 1;
        }
    }

    /// Delivers `byte` to every registered modem, the transmitters included,
    /// in the order of registration.
    pub fn deliver(&self, byte: u8) {
        let count: usize = self.devices.len();
        let mut i: usize = 0;
        while i < count
            invariant
                count == self.devices@.len(),
                i <= count,
            decreases count - i,
        {
            self.devices[i].put_to_device_network_side(byte);
            i += 1;
        }
    }
}

/// What the lock of a registry lets in: any registry.
struct AnyRegistry;

impl RwLockPredicate<DriverRegistry> for AnyRegistry {
    closed spec fn inv(self, registry: DriverRegistry) -> bool {
        true
    }
}

/// A named handle to the registry of one coverage zone.
///
/// The registry sits behind a lock and is shared by every clone of the
/// handle. Every operation locks the registry, performs the step of the same
/// name on the [`DriverRegistry`] inside, and unlocks it. As other handles
/// may act between two calls, a call promises nothing about what the
/// registry held before or holds after; what each step does to the registry
/// it finds is stated on [`DriverRegistry`].
pub struct EtherSimulator {
    name: String,
    devices: Arc<RwLock<DriverRegistry, AnyRegistry>>,
}

impl EtherSimulator {
    /// The name of this ether.
    pub closed spec fn name(&self) -> Seq<char> {
        self.name@
    }

    /// An ether with a registry of its own, in which no modem is registered.
    pub fn new(name: &str) -> (ether: Self)
        ensures
            ether.name() == name@,
    {
        let lock = RwLock::new(DriverRegistry::new(), Ghost(AnyRegistry));
        EtherSimulator { name: name.to_owned(), devices: Arc::new(lock) }
    }

    /// The name under which a network finds this ether.
    pub fn get_name(&self) -> (name: &str)
        ensures
            name@ == self.name(),
    {
        self.name.as_str()
    }

    /// Whether this ether goes by `name`.
    pub fn is_named(&self, name: &String) -> (named: bool)
        ensures
            named == (self.name() == name@),
    {
        self.name == *name
    }

    /// A handle to a new modem, registered nowhere yet.
    pub fn create_driver(name: &str) -> (driver: WirelessModemFake)
        ensures
            driver.name() == name@,
    {
        WirelessModemFake::new(name)
    }

    /// Locks the registry and registers `driver` as
    /// [`DriverRegistry::register_driver`] does. The handle stays what it
    /// was.
    pub fn register_driver(&mut self, driver: WirelessModemFake)
        ensures
            *final(self) == *old(self),
    {
        let (mut registry, guard) = self.devices.acquire_write();
        registry.register_driver(driver);
        guard.release_write(registry);
    }

    /// Locks the registry and takes out every modem that goes by `name` as
    /// [`DriverRegistry::unregister_driver`] does. The handle stays what it
    /// was.
    pub fn unregister_driver(&mut self, name: &str)
        ensures
            *final(self) == *old(self),
    {
        let (mut registry, guard) = self.devices.acquire_write();
        registry.unregister_driver(name);
        guard.release_write(registry);
    }

    /// Locks the registry and looks up `name` as
    /// [`DriverRegistry::get_driver`] does. Whatever is registered, a modem
    /// that is found goes by `name`.
    pub fn get_driver(&self, name: &str) -> (found: Option<WirelessModemFake>)
        ensures
            found matches Some(driver) ==> driver.name() == name@,
    {
        let guard = self.devices.acquire_read();
        let found = guard.borrow().get_driver(name);
        guard.release_read();
        found
    }

    /// Locks the registry and finds the byte on the medium as
    /// [`DriverRegistry::get_current_byte`] does.
    pub fn get_current_byte(&self) -> (current: Option<u8>) {
        let guard = self.devices.acquire_read();
        let current = guard.borrow().get_current_byte();
        guard.release_read();
        current
    }

    /// Locks the registry and starts a tick on every registered modem.
    pub fn start_tick(&self) {
        let guard = self.devices.acquire_read();
        guard.borrow().start_tick();
        guard.release_read();
    }

    /// Locks the registry and ends the tick on every registered modem.
    pub fn end_tick(&self) {
        let guard = self.devices.acquire_read();
        guard.borrow().end_tick();
        guard.release_read();
    }

    /// Settles the medium for one tick: finds the byte on it and, if there is
    /// one, delivers it to every modem that is registered by then, the
    /// transmitters included. The registry is locked once to find the byte
    /// and once more to deliver it. Starts and ends no tick.
    pub fn simulate(&self) {
        let current_byte = self.get_current_byte();
        if let Some(current_byte) = current_byte {
            let guard = self.devices.acquire_read();
            guard.borrow().deliver(current_byte);
            guard.release_read();
        }
    }

    /// Another handle to the same registry, under the same name.
    pub fn clone(&self) -> (copy: Self)
        ensures
            copy == *self,
    {
        EtherSimulator { name: self.name.clone(), devices: Arc::clone(&self.devices) }
    }
}

} // verus!
