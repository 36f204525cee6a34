//! Several ethers under their names, each with modems of its own.

use crate::device::traits::IODriverSimulator;
use crate::ether::{ticked, Ether};
use crate::model::DeviceModel;
use vstd::prelude::*;

verus! {

/// An ether and the name it was added under.
struct NamedEther<IODrv: IODriverSimulator> {
    name: String,
    ether: Ether<IODrv>,
}

/// Ethers by name. An ether added under a name that is taken replaces the
/// ether that had it. No modem belongs to two ethers, so the ethers tick
/// independently of each other.
pub struct Simulator<IODrv: IODriverSimulator> {
    ethers: Vec<NamedEther<IODrv>>,
}

impl<IODrv: IODriverSimulator> View for Simulator<IODrv> {
    type V = Map<Seq<char>, Seq<DeviceModel>>;

    /// The modems of each ether, by the name of the ether.
    closed spec fn view(&self) -> Map<Seq<char>, Seq<DeviceModel>> {
        Map::new(|name: Seq<char>| self.holds(name), |name: Seq<char>| self.ethers@[self.place(name)].ether@)
    }
}

impl<IODrv: IODriverSimulator> Simulator<IODrv> {
    /// Whether the ether at `at` is the first that was added under `name`.
    spec fn is_place(&self, name: Seq<char>, at: int) -> bool {
        &&& 0 <= at < self.ethers@.len()
        &&& self.ethers@[at].name@ == name
        &&& forall|earlier: int| 0 <= earlier < at ==> self.ethers@[earlier].name@ != name
    }

    spec fn holds(&self, name: Seq<char>) -> bool {
        exists|at: int| self.is_place(name, at)
    }

    spec fn place(&self, name: Seq<char>) -> int {
        choose|at: int| self.is_place(name, at)
    }

    /// Two simulators whose ethers go by the same names, in the same order,
    /// hold the same names at the same places.
    proof fn lemma_same_names(&self, other: &Self)
        requires
            self.ethers@.len() == other.ethers@.len(),
            forall|at: int|
                0 <= at < self.ethers@.len() ==> (#[trigger] self.ethers@[at]).name@
                    == other.ethers@[at].name@,
        ensures
            forall|name: Seq<char>| self.holds(name) == other.holds(name),
            forall|name: Seq<char>| self.holds(name) ==> self.place(name) == other.place(name),
    {
        assert forall|name: Seq<char>, at: int| self.is_place(name, at) == other.is_place(
            name,
            at,
        ) by {
            if self.is_place(name, at) {
                assert(self.ethers@[at].name@ == other.ethers@[at].name@);
                assert forall|earlier: int| 0 <= earlier < at implies other.ethers@[earlier].name@
                    != name by {
                    assert(self.ethers@[earlier].name@ == other.ethers@[earlier].name@);
                }
            }
            if other.is_place(name, at) {
                assert(self.ethers@[at].name@ == other.ethers@[at].name@);
                assert forall|earlier: int| 0 <= earlier < at implies self.ethers@[earlier].name@
                    != name by {
                    assert(self.ethers@[earlier].name@ == other.ethers@[earlier].name@);
                }
            }
        }
        assert forall|name: Seq<char>| self.holds(name) implies self.place(name) == other.place(
            name,
        ) by {
            let a = self.place(name);
            assert(other.is_place(name, a));
            let b = other.place(name);
            assert(other.is_place(name, b));
            if a < b {
                assert(other.ethers@[a].name@ != name);
            }
            if b < a {
                assert(other.ethers@[b].name@ != name);
            }
        }
    }

    /// The first ether of a name is found at one place only.
    proof fn lemma_place_is_unique(&self, name: Seq<char>, at: int)
        requires
            self.is_place(name, at),
        ensures
            self.holds(name),
            self.place(name) == at,
    {
        let other = self.place(name);
        if at < other {
            assert(self.ethers@[at].name@ != name);
        }
        if other < at {
            assert(self.ethers@[other].name@ != name);
        }
    }

    /// A simulator without ethers.
    pub fn new() -> (simulator: Self)
        ensures
            simulator@ == Map::<Seq<char>, Seq<DeviceModel>>::empty(),
    {
        let simulator = Self { ethers: Vec::new() };
        assert(simulator@ =~= Map::<Seq<char>, Seq<DeviceModel>>::empty());
        simulator
    }

    /// The place of the ether that goes by `name`.
    fn find(&self, name: &String) -> (found: Option<usize>)
        ensures
            match found {
                Some(at) => self.is_place(name@, at as int),
                None => !self.holds(name@),
            },
    {
        let count: usize = self.ethers.len();
        let mut i: usize = 0;
        while i < count
            invariant
                count == self.ethers@.len(),
                i <= count,
                forall|j: int| 0 <= j < i ==> self.ethers@[j].name@ != name@,
            decreases count - i,
        {
            if self.ethers[i].name == *name {
                return Some(i);
            }
            i += 1;
        }
        None
    }

    /// Adds `ether` under `name`, in place of the ether of that name if there
    /// is one.
    pub fn add_ether(&mut self, ether: Ether<IODrv>, name: String)
        ensures
            final(self)@ == old(self)@.insert(name@, ether@),
    {
        match self.find(&name) {
            Some(at) => {
                self.ethers[at].ether = ether;
                proof {
                    self.lemma_same_names(old(self));
                    self.lemma_place_is_unique(name@, at as int);
                    assert(self@ =~= old(self)@.insert(name@, ether@));
                }
            },
            None => {
                self.ethers.push(NamedEther { name, ether });
                proof {
                    assert(self.ethers@.drop_last() =~= old(self).ethers@);
                    self.lemma_pushed(old(self));
                }
            },
        }
    }

    /// An ether pushed under a name that was not held is held under that
    /// name, and the ethers held before are held as they were.
    proof fn lemma_pushed(&self, before: &Self)
        requires
            self.ethers@.len() == before.ethers@.len() + 1,
            self.ethers@.drop_last() == before.ethers@,
            !before.holds(self.ethers@.last().name@),
        ensures
            self@ == before@.insert(self.ethers@.last().name@, self.ethers@.last().ether@),
    {
        let last = before.ethers@.len() as int;
        let fresh = self.ethers@[last].name@;
        assert forall|at: int| 0 <= at < last implies self.ethers@[at] == before.ethers@[at] by {
            assert(self.ethers@.drop_last()[at] == self.ethers@[at]);
        }
        assert forall|key: Seq<char>, at: int| at < last implies self.is_place(key, at)
            == before.is_place(key, at) by {}
        assert(self.is_place(fresh, last)) by {
            assert forall|earlier: int| 0 <= earlier < last implies self.ethers@[earlier].name@
                != fresh by {
                if before.ethers@[earlier].name@ == fresh {
                    before.lemma_holds_some(fresh, earlier);
                }
            }
        }
        self.lemma_place_is_unique(fresh, last);
        assert forall|key: Seq<char>| before.holds(key) implies self.holds(key) && self.place(key)
            == before.place(key) by {
            let at = before.place(key);
            assert(self.is_place(key, at));
            self.lemma_place_is_unique(key, at);
        }
        assert forall|key: Seq<char>| self.holds(key) && key != fresh implies before.holds(key) by {
            let at = self.place(key);
            assert(before.is_place(key, at));
        }
        assert(self@ =~= before@.insert(fresh, self.ethers@[last].ether@));
    }

    /// Any ether of a name shows that the name is held.
    proof fn lemma_holds_some(&self, name: Seq<char>, at: int)
        requires
            0 <= at < self.ethers@.len(),
            self.ethers@[at].name@ == name,
        ensures
            self.holds(name),
        decreases at,
    {
        if exists|earlier: int| 0 <= earlier < at && self.ethers@[earlier].name@ == name {
            let earlier = choose|earlier: int|
                0 <= earlier < at && self.ethers@[earlier].name@ == name;
            self.lemma_holds_some(name, earlier);
        } else {
            assert(self.is_place(name, at));
        }
    }

    /// The ether that goes by `name`.
    pub fn get_ether(&self, name: &String) -> (found: Option<&Ether<IODrv>>)
        ensures
            match found {
                Some(ether) => self@.contains_key(name@) && ether@ == self@[name@],
                None => !self@.contains_key(name@),
            },
    {
        match self.find(name) {
            Some(at) => {
                proof {
                    self.lemma_place_is_unique(name@, at as int);
                }
                Some(&self.ethers[at].ether)
            },
            None => None,
        }
    }

    /// Attaches `device` to the ether that goes by `ether_name`, behind the
    /// modems that ether has.
    pub fn add_device_to_ether(&mut self, ether_name: String, device: IODrv)
        requires
            old(self)@.contains_key(ether_name@),
        ensures
            final(self)@ == old(self)@.insert(
                ether_name@,
                old(self)@[ether_name@].push(device@),
            ),
    {
        match self.find(&ether_name) {
            Some(at) => {
                self.ethers[at].ether.add_device(device);
                proof {
                    self.lemma_same_names(old(self));
                    self.lemma_place_is_unique(ether_name@, at as int);
                    assert(self@ =~= old(self)@.insert(
                        ether_name@,
                        old(self)@[ether_name@].push(device@),
                    ));
                }
            },
            None => {},
        }
    }

    /// One whole tick of every ether.
    pub fn update(&mut self)
        ensures
            final(self)@ == old(self)@.map_values(|devices: Seq<DeviceModel>| ticked(devices)),
    {
        let count: usize = self.ethers.len();
        let mut i: usize = 0;
        while i < count
            invariant
                count == self.ethers@.len(),
                count == old(self).ethers@.len(),
                i <= count,
                forall|j: int|
                    0 <= j < count ==> (#[trigger] self.ethers@[j]).name == old(
                        self,
                    ).ethers@[j].name,
                forall|j: int|
                    0 <= j < i ==> (#[trigger] self.ethers@[j]).ether@ == ticked(
                        old(self).ethers@[j].ether@,
                    ),
                forall|j: int|
                    i <= j < count ==> (#[trigger] self.ethers@[j]).ether == old(
                        self,
                    ).ethers@[j].ether,
            decreases count - i,
        {
            self.ethers[i].ether.update();
            i += 1;
        }
        proof {
            self.lemma_same_names(old(self));
        }
        assert(self@ =~= old(self)@.map_values(|devices: Seq<DeviceModel>| ticked(devices)));
    }
}

} // verus!
