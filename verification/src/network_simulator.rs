//! The life cycle of a simulated network, and the step that advances it.
//!
//! A [`NetworkSimulator`] is either stopped or running. While it is stopped it
//! owns its ethers, and they can be created and looked up. Starting the
//! simulation hands the ethers out to whoever drives the ticks, as a value;
//! stopping takes them back. So the collection of ethers has one owner at any
//! time, and creating or looking up an ether can never race with a tick. What
//! is registered in an ether sits behind that ether's own lock, and may
//! change through a clone of the ether while the simulation runs.

use crate::ether_simulator::EtherSimulator;
use vstd::pervasive::unreached;
use vstd::prelude::*;

verus! {

/// What a [`NetworkSimulator`] holds.
pub struct NetworkModel {
    /// The period of a tick, in milliseconds.
    pub tick_period: u64,
    /// The ethers in the order of their creation, while the simulation is
    /// stopped; nothing while it runs.
    pub ethers: Option<Seq<EtherSimulator>>,
}

impl NetworkModel {
    /// A stopped simulator without ethers.
    pub open spec fn fresh(tick_period: u64) -> NetworkModel {
        NetworkModel { tick_period, ethers: Some(Seq::empty()) }
    }

    /// Whether the simulation runs, that is, whether the ethers are handed out.
    pub open spec fn is_running(self) -> bool {
        self.ethers is None
    }

    /// The same simulator with `ether` behind the ethers it has.
    pub open spec fn with_ether(self, ether: EtherSimulator) -> NetworkModel
        recommends
            !self.is_running(),
    {
        NetworkModel { ethers: Some(self.ethers->0.push(ether)), ..self }
    }

    /// The same simulator with `ether` in place of the ether at `at`.
    pub open spec fn with_ether_at(self, at: int, ether: EtherSimulator) -> NetworkModel
        recommends
            !self.is_running(),
            0 <= at < self.ethers->0.len(),
    {
        NetworkModel { ethers: Some(self.ethers->0.update(at, ether)), ..self }
    }

    /// Whether the ether at `at` is the first one that goes by `name`.
    pub open spec fn first_named(self, name: Seq<char>, at: int) -> bool
        recommends
            !self.is_running(),
    {
        &&& 0 <= at < self.ethers->0.len()
        &&& self.ethers->0[at].name() == name
        &&& forall|earlier: int| 0 <= earlier < at ==> self.ethers->0[earlier].name() != name
    }

    /// Whether some ether goes by `name`.
    pub open spec fn has_named(self, name: Seq<char>) -> bool
        recommends
            !self.is_running(),
    {
        exists|at: int| 0 <= at < self.ethers->0.len() && self.ethers->0[at].name() == name
    }

    /// The simulator once the simulation has started: its ethers are gone.
    pub open spec fn started(self) -> NetworkModel {
        NetworkModel { ethers: None, ..self }
    }

    /// The simulator once the simulation has stopped and `returned` has come
    /// back.
    pub open spec fn stopped(self, returned: Seq<EtherSimulator>) -> NetworkModel {
        NetworkModel { ethers: Some(returned), ..self }
    }
}

/// Ethers, their tick period, and the state of the simulation: stopped, with
/// the ethers at hand, or running, with the ethers handed out.
pub struct NetworkSimulator {
    ethers: Option<Vec<EtherSimulator>>,
    ms_per_tick: u64,
}

impl View for NetworkSimulator {
    type V = NetworkModel;

    closed spec fn view(&self) -> NetworkModel {
        NetworkModel {
            tick_period: self.ms_per_tick,
            ethers: match self.ethers {
                Some(ethers) => Some(ethers@),
                None => None,
            },
        }
    }
}

impl NetworkSimulator {
    /// A stopped simulator without ethers.
    pub fn new(ms_per_tick: u64) -> (simulator: Self)
        ensures
            simulator@ == NetworkModel::fresh(ms_per_tick),
    {
        NetworkSimulator { ethers: Some(Vec::new()), ms_per_tick }
    }

    /// The period of a tick, in milliseconds.
    pub fn ms_per_tick(&self) -> (period: u64)
        ensures
            period == self@.tick_period,
    {
        self.ms_per_tick
    }

    /// Whether the simulation runs, that is, whether the ethers are handed out.
    pub fn is_running(&self) -> (running: bool)
        ensures
            running == self@.is_running(),
    {
        self.ethers.is_none()
    }

    /// Creates an ether with a registry of its own, behind the ethers that
    /// exist, and returns it. Only a stopped simulator can be configured.
    pub fn create_ether(&mut self, name: &str) -> (ether: &mut EtherSimulator)
        requires
            !old(self)@.is_running(),
        ensures
            ether.name() == name@,
            final(self)@ == old(self)@.with_ether(*final(ether)),
    {
        match &mut self.ethers {
            Some(ethers) => {
                let ghost before = ethers@;
                ethers.push(EtherSimulator::new(name));
                let last: usize = ethers.len() - 1;
                let ether = &mut ethers[last];
                proof {
                    assert(before.push(*ether).update(last as int, *final(ether)) =~= before.push(
                        *final(ether),
                    ));
                }
                ether
            },
            None => unreached(),
        }
    }

    /// Finds the first ether that goes by `name`. Only a stopped simulator
    /// can be configured.
    pub fn get_ether(&mut self, name: &str) -> (found: Option<&mut EtherSimulator>)
        requires
            !old(self)@.is_running(),
        ensures
            match found {
                Some(ether) => exists|at: int|
                    old(self)@.first_named(name@, at) && *ether == old(self)@.ethers->0[at]
                        && final(self)@ == old(self)@.with_ether_at(at, *final(ether)),
                None => !old(self)@.has_named(name@) && final(self)@ == old(self)@,
            },
    {
        match self.position_of(name) {
            Some(at) => match &mut self.ethers {
                Some(ethers) => Some(&mut ethers[at]),
                None => unreached(),
            },
            None => None,
        }
    }

    /// The place of the first ether that goes by `name`.
    fn position_of(&self, name: &str) -> (found: Option<usize>)
        requires
            !self@.is_running(),
        ensures
            match found {
                Some(at) => self@.first_named(name@, at as int),
                None => !self@.has_named(name@),
            },
    {
        let key: String = name.to_owned();
        match &self.ethers {
            Some(ethers) => {
                let count: usize = ethers.len();
                let mut i: usize = 0;
                while i < count
                    invariant
                        self.ethers == Some(*ethers),
                        count == ethers@.len(),
                        i <= count,
                        key@ == name@,
                        forall|j: int| 0 <= j < i ==> ethers@[j].name() != name@,
                    decreases count - i,
                {
                    if ethers[i].is_named(&key) {
                        return Some(i);
                    }
                    i += 1;
                }
                None
            },
            None => unreached(),
        }
    }

    /// Starts the simulation: hands out the ethers, in their order, to the
    /// caller, who drives the ticks with [`simulation_step`] and gives the
    /// ethers back to [`NetworkSimulator::stop_simulation_thread`].
    pub fn start_simulation_thread(&mut self) -> (ethers: Vec<EtherSimulator>)
        requires
            !old(self)@.is_running(),
        ensures
            final(self)@ == old(self)@.started(),
            Some(ethers@) == old(self)@.ethers,
    {
        match self.ethers.take() {
            Some(ethers) => ethers,
            None => unreached(),
        }
    }

    /// Stops the simulation: takes back the ethers that the start handed out.
    pub fn stop_simulation_thread(&mut self, ethers: Vec<EtherSimulator>)
        requires
            old(self)@.is_running(),
        ensures
            final(self)@ == old(self)@.stopped(ethers@),
    {
        self.ethers = Some(ethers);
    }
}

/// One tick of the whole network, in three phases: every ether starts the
/// tick, then every ether settles its medium, then every ether ends the tick.
/// Each phase visits the ethers in their order. A modem registered in two
/// ethers thus takes part, within a single tick of its own, in both mediums.
pub fn tick(ethers: &Vec<EtherSimulator>) {
    let count: usize = ethers.len();
    let mut i: usize = 0;
    while i < count
        invariant
            count == ethers@.len(),
            i <= count,
        decreases count - i,
    {
        ethers[i].start_tick();
        i += 1;
    }
    i = 0;
    while i < count
        invariant
            count == ethers@.len(),
            i <= count,
        decreases count - i,
    {
        ethers[i].simulate();
        i += 1;
    }
    i = 0;
    while i < count
        invariant
            count == ethers@.len(),
            i <= count,
        decreases count - i,
    {
        ethers[i].end_tick();
        i += 1;
    }
}

/// What the driver of the simulation does each time its tick period has
/// passed: if a stop was requested, nothing, and the answer is that the
/// simulation ends; otherwise one [`tick`], and the simulation goes on.
pub fn simulation_step(ethers: &Vec<EtherSimulator>, stop_requested: bool) -> (goes_on: bool)
    ensures
        goes_on == !stop_requested,
{
    if stop_requested {
        false
    } else {
        tick(ethers);
        true
    }
}

/// Configuration is shut while the simulation runs, and stopping restores what
/// starting took: a stopped simulator that is started is running, which
/// [`NetworkSimulator::create_ether`] and [`NetworkSimulator::get_ether`]
/// refuse, and once it is stopped with the ethers that the start handed out,
/// it is the simulator it was before: the same ethers, each the handle to the
/// registry it was, under the same names and in the same order.
pub proof fn lemma_stop_restores_what_start_took(before: NetworkModel)
    requires
        !before.is_running(),
    ensures
        before.started().is_running(),
        before.started().stopped(before.ethers->0) == before,
{
}

} // verus!
