use proto_lab::network_simulator::{simulation_step, tick};
use proto_lab::{EtherSimulator, NetworkSimulator, WirelessModemFake};

#[test]
fn new_simulator_is_stopped_and_empty() {
    let mut simulator = NetworkSimulator::new(5);
    assert_eq!(simulator.ms_per_tick(), 5);
    assert_eq!(simulator.is_running(), false);
    assert!(simulator.get_ether("1").is_none());
}

#[test]
fn created_ether_is_found_by_name() {
    let mut simulator = NetworkSimulator::new(1);
    {
        let ether = simulator.create_ether("1");
        assert_eq!(ether.get_name(), "1");
        ether.register_driver(WirelessModemFake::new("d"));
    }
    simulator.create_ether("2");

    let first = simulator.get_ether("1").expect("created");
    assert_eq!(first.get_name(), "1");
    assert!(first.get_driver("d").is_some());
    let second = simulator.get_ether("2").expect("created");
    assert_eq!(second.get_name(), "2");
    assert!(second.get_driver("d").is_none());
    assert!(simulator.get_ether("3").is_none());
}

#[test]
fn create_ether_returns_the_new_ether() {
    let mut simulator = NetworkSimulator::new(1);
    simulator.create_ether("twin").register_driver(WirelessModemFake::new("old"));
    let created = simulator.create_ether("twin");
    assert!(created.get_driver("old").is_none());
    created.register_driver(WirelessModemFake::new("new"));

    // Lookup finds the first ether of the name.
    let found = simulator.get_ether("twin").expect("created");
    assert!(found.get_driver("old").is_some());
    assert!(found.get_driver("new").is_none());
}

#[test]
fn get_ether_gives_access_to_the_registry() {
    let mut simulator = NetworkSimulator::new(1);
    simulator.create_ether("1");
    simulator.get_ether("1").expect("created").register_driver(WirelessModemFake::new("d"));
    assert!(simulator.get_ether("1").expect("created").get_driver("d").is_some());
    simulator.get_ether("1").expect("created").unregister_driver("d");
    assert!(simulator.get_ether("1").expect("created").get_driver("d").is_none());
}

// Lifecycle: starting hands the ethers out, stopping takes them back as they were.
#[test]
fn stop_restores_what_start_took() {
    let mut simulator = NetworkSimulator::new(1);
    let driver = WirelessModemFake::new("d");
    simulator.create_ether("1").register_driver(driver.clone());
    simulator.create_ether("2");
    driver.put_to_rx_pin(7);

    let ethers = simulator.start_simulation_thread();
    assert_eq!(simulator.is_running(), true);
    assert_eq!(ethers.len(), 2);
    assert_eq!(ethers[0].get_name(), "1");
    assert_eq!(ethers[1].get_name(), "2");

    simulator.stop_simulation_thread(ethers);
    assert_eq!(simulator.is_running(), false);
    assert_eq!(simulator.ms_per_tick(), 1);
    assert!(simulator.get_ether("1").expect("kept").get_driver("d").is_some());
    assert!(simulator.get_ether("2").expect("kept").get_driver("d").is_none());

    // The queue of the registered modem is as it was: no tick was made.
    driver.start_tick();
    assert_eq!(driver.get_from_device_network_side(), Some(7));
}

#[test]
fn simulator_can_be_started_again_after_a_stop() {
    let mut simulator = NetworkSimulator::new(1);
    simulator.create_ether("1");
    let ethers = simulator.start_simulation_thread();
    simulator.stop_simulation_thread(ethers);
    simulator.create_ether("2");
    let ethers = simulator.start_simulation_thread();
    assert_eq!(ethers.len(), 2);
    assert_eq!(simulator.is_running(), true);
    simulator.stop_simulation_thread(ethers);
    assert!(simulator.get_ether("2").is_some());
}

#[test]
fn simulation_step_ticks_unless_a_stop_was_requested() {
    let mut ether = EtherSimulator::new("1");
    let sender = WirelessModemFake::new("s");
    let listener = WirelessModemFake::new("l");
    ether.register_driver(sender.clone());
    ether.register_driver(listener.clone());
    let ethers = vec![ether];

    sender.put_to_rx_pin(1);
    sender.put_to_rx_pin(2);

    assert_eq!(simulation_step(&ethers, true), false);
    assert_eq!(listener.readable(), false);

    assert_eq!(simulation_step(&ethers, false), true);
    assert_eq!(listener.get_from_tx_pin(), Some(1));
    assert_eq!(listener.get_from_tx_pin(), None);

    assert_eq!(simulation_step(&ethers, false), true);
    assert_eq!(listener.get_from_tx_pin(), Some(2));
}

fn bridged() -> (Vec<EtherSimulator>, WirelessModemFake, WirelessModemFake, WirelessModemFake) {
    let x = WirelessModemFake::new("x");
    let y = WirelessModemFake::new("y");
    let z = WirelessModemFake::new("z");
    let mut ether_a = EtherSimulator::new("a");
    ether_a.register_driver(y.clone());
    ether_a.register_driver(x.clone());
    let mut ether_b = EtherSimulator::new("b");
    ether_b.register_driver(x.clone());
    ether_b.register_driver(z.clone());
    (vec![ether_a, ether_b], x, y, z)
}

// A modem registered in two ethers transmits into both within one tick.
#[test]
fn bridge_transmits_into_both_ethers_in_one_tick() {
    let (ethers, x, y, z) = bridged();
    x.put_to_rx_pin(0x10);

    tick(&ethers);

    assert_eq!(y.get_from_tx_pin(), Some(0x10));
    assert_eq!(z.get_from_tx_pin(), Some(0x10));
    assert_eq!(x.get_from_tx_pin(), None);
}

// What one ether delivers to the bridge is stored by the bridge at the end of
// the tick. The far ether hears it once the bridge's protocol layer has read
// it and queued it again.
#[test]
fn bridge_receives_from_one_ether_and_relays_in_a_later_tick() {
    let (ethers, x, y, z) = bridged();
    y.put_to_rx_pin(0x10);

    tick(&ethers);

    assert_eq!(z.get_from_tx_pin(), None);
    let relayed = x.get_from_tx_pin();
    assert_eq!(relayed, Some(0x10));

    x.put_to_rx_pin(0x10);
    tick(&ethers);

    assert_eq!(z.get_from_tx_pin(), Some(0x10));
    assert_eq!(y.get_from_tx_pin(), Some(0x10));
}

// The phases run across all ethers: the bridge starts its tick once, so the
// second ether sees the same transmission as the first.
#[test]
fn bridge_takes_one_byte_per_network_tick() {
    let (ethers, x, y, z) = bridged();
    x.put_to_rx_pin(1);
    x.put_to_rx_pin(2);

    tick(&ethers);
    assert_eq!(y.get_from_tx_pin(), Some(1));
    assert_eq!(z.get_from_tx_pin(), Some(1));

    tick(&ethers);
    assert_eq!(y.get_from_tx_pin(), Some(2));
    assert_eq!(z.get_from_tx_pin(), Some(2));

    tick(&ethers);
    assert_eq!(y.get_from_tx_pin(), None);
    assert_eq!(z.get_from_tx_pin(), None);
}

// A clone of an ether kept by the caller changes the topology while the
// ethers are handed out, and the change is there when they come back.
#[test]
fn topology_changes_through_a_clone_while_the_simulation_runs() {
    let mut simulator = NetworkSimulator::new(1);
    let sender = WirelessModemFake::new("s");
    let late = WirelessModemFake::new("late");
    simulator.create_ether("1").register_driver(sender.clone());
    let mut kept = simulator.get_ether("1").expect("created").clone();

    let ethers = simulator.start_simulation_thread();
    sender.put_to_rx_pin(1);
    sender.put_to_rx_pin(2);
    tick(&ethers);
    assert_eq!(late.readable(), false);

    kept.register_driver(late.clone());
    tick(&ethers);
    assert_eq!(late.get_from_tx_pin(), Some(2));

    simulator.stop_simulation_thread(ethers);
    assert!(simulator.get_ether("1").expect("kept").get_driver("late").is_some());
    kept.unregister_driver("s");
    assert!(simulator.get_ether("1").expect("kept").get_driver("s").is_none());
}

#[test]
fn tick_of_no_ethers_does_nothing() {
    let ethers: Vec<EtherSimulator> = Vec::new();
    tick(&ethers);
    assert_eq!(simulation_step(&ethers, false), true);
}
