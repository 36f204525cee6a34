use proto_lab::{EtherSimulator, WirelessModemFake};

#[test]
fn new_ether_has_its_name_and_no_driver() {
    let ether = EtherSimulator::new("zone");
    assert_eq!(ether.get_name(), "zone");
    assert_eq!(ether.is_named(&String::from("zone")), true);
    assert_eq!(ether.is_named(&String::from("other")), false);
    assert!(ether.get_driver("anything").is_none());
    assert_eq!(ether.get_current_byte(), None);
}

#[test]
fn created_driver_is_not_registered() {
    let ether = EtherSimulator::new("zone");
    let driver = EtherSimulator::create_driver("d");
    assert_eq!(driver.get_name(), "d");
    assert!(ether.get_driver("d").is_none());
}

#[test]
fn registered_driver_is_found_and_shared() {
    let mut ether = EtherSimulator::new("zone");
    let driver = EtherSimulator::create_driver("d");
    ether.register_driver(driver.clone());

    let found = ether.get_driver("d").expect("registered");
    assert_eq!(found.get_name(), "d");
    found.put_to_rx_pin(3);
    driver.start_tick();
    assert_eq!(driver.get_from_device_network_side(), Some(3));
    assert!(ether.get_driver("e").is_none());
}

#[test]
fn get_driver_returns_the_first_of_a_name() {
    let mut ether = EtherSimulator::new("zone");
    let first = EtherSimulator::create_driver("twin");
    let second = EtherSimulator::create_driver("twin");
    ether.register_driver(first.clone());
    ether.register_driver(second.clone());

    let found = ether.get_driver("twin").expect("registered");
    found.put_to_rx_pin(1);
    first.start_tick();
    second.start_tick();
    assert_eq!(first.get_from_device_network_side(), Some(1));
    assert_eq!(second.get_from_device_network_side(), None);
}

#[test]
fn unregister_removes_every_driver_of_the_name() {
    let mut ether = EtherSimulator::new("zone");
    ether.register_driver(EtherSimulator::create_driver("a"));
    ether.register_driver(EtherSimulator::create_driver("b"));
    ether.register_driver(EtherSimulator::create_driver("a"));
    ether.register_driver(EtherSimulator::create_driver("c"));
    ether.register_driver(EtherSimulator::create_driver("a"));

    ether.unregister_driver("a");
    assert!(ether.get_driver("a").is_none());
    assert!(ether.get_driver("b").is_some());
    assert!(ether.get_driver("c").is_some());

    // A name that is not registered changes nothing.
    ether.unregister_driver("missing");
    assert!(ether.get_driver("b").is_some());
    assert!(ether.get_driver("c").is_some());
}

#[test]
fn unregister_keeps_the_order_of_the_others() {
    let mut ether = EtherSimulator::new("zone");
    let first = EtherSimulator::create_driver("keep");
    let second = EtherSimulator::create_driver("keep");
    ether.register_driver(EtherSimulator::create_driver("drop"));
    ether.register_driver(first.clone());
    ether.register_driver(EtherSimulator::create_driver("drop"));
    ether.register_driver(second.clone());
    ether.unregister_driver("drop");

    // Both transmit; the last registered of those left wins.
    first.put_to_rx_pin(1);
    second.put_to_rx_pin(2);
    ether.start_tick();
    assert_eq!(ether.get_current_byte(), Some(2));
    ether.end_tick();
}

#[test]
fn unregistered_driver_no_longer_ticks() {
    let mut ether = EtherSimulator::new("zone");
    let driver = EtherSimulator::create_driver("d");
    ether.register_driver(driver.clone());
    ether.unregister_driver("d");
    driver.put_to_rx_pin(1);
    ether.start_tick();
    assert_eq!(driver.get_from_device_network_side(), None);
    assert_eq!(ether.get_current_byte(), None);
}

// Determinism of collision, through shared handles.
#[test]
fn last_registered_transmitter_wins_in_the_simulator() {
    let mut ether = EtherSimulator::new("zone");
    let d1 = EtherSimulator::create_driver("d1");
    let d2 = EtherSimulator::create_driver("d2");
    let d3 = EtherSimulator::create_driver("d3");
    ether.register_driver(d1.clone());
    ether.register_driver(d2.clone());
    ether.register_driver(d3.clone());
    d1.put_to_rx_pin(0x41);
    d2.put_to_rx_pin(0x42);

    ether.start_tick();
    assert_eq!(ether.get_current_byte(), Some(0x42));
    ether.simulate();
    ether.end_tick();

    assert_eq!(d1.get_from_tx_pin(), None);
    assert_eq!(d2.get_from_tx_pin(), None);
    assert_eq!(d3.get_from_tx_pin(), Some(0x42));
    assert_eq!(d3.get_from_tx_pin(), None);
}

#[test]
fn simulate_without_transmitter_delivers_nothing() {
    let mut ether = EtherSimulator::new("zone");
    let d1 = EtherSimulator::create_driver("d1");
    ether.register_driver(d1.clone());
    ether.start_tick();
    ether.simulate();
    ether.end_tick();
    assert_eq!(d1.readable(), false);
}

#[test]
fn simulate_starts_and_ends_no_tick() {
    let mut ether = EtherSimulator::new("zone");
    let sender = EtherSimulator::create_driver("s");
    let listener = EtherSimulator::create_driver("l");
    ether.register_driver(sender.clone());
    ether.register_driver(listener.clone());
    sender.put_to_rx_pin(1);

    ether.simulate();
    ether.end_tick();
    assert_eq!(listener.readable(), false);

    ether.start_tick();
    ether.simulate();
    assert_eq!(listener.readable(), false);
    ether.end_tick();
    assert_eq!(listener.get_from_tx_pin(), Some(1));
}

// A clone is another handle to the same registry.
#[test]
fn clone_shares_the_registry() {
    let ether = EtherSimulator::new("e");
    let mut copy = ether.clone();
    copy.register_driver(WirelessModemFake::new("d"));
    assert_eq!(copy.get_name(), "e");
    assert!(ether.get_driver("d").is_some());
    assert!(copy.get_driver("d").is_some());

    copy.unregister_driver("d");
    assert!(ether.get_driver("d").is_none());
}

#[test]
fn clone_sees_what_was_registered_before_and_after_it_was_made() {
    let mut ether = EtherSimulator::new("zone");
    let sender = EtherSimulator::create_driver("s");
    let listener = EtherSimulator::create_driver("l");
    ether.register_driver(sender.clone());

    let copy = ether.clone();
    ether.register_driver(listener.clone());
    assert_eq!(copy.get_name(), "zone");
    assert!(copy.get_driver("s").is_some());
    assert!(copy.get_driver("l").is_some());

    sender.put_to_rx_pin(9);
    copy.start_tick();
    copy.simulate();
    copy.end_tick();
    assert_eq!(listener.get_from_tx_pin(), Some(9));
}

// Two ethers made under one name have a registry each.
#[test]
fn ethers_of_one_name_do_not_share_a_registry() {
    let mut first = EtherSimulator::new("twin");
    let second = EtherSimulator::new("twin");
    first.register_driver(WirelessModemFake::new("d"));
    assert!(first.get_driver("d").is_some());
    assert!(second.get_driver("d").is_none());
}

fn shared_between_threads<T: Send + Sync>(_value: &T) -> bool {
    true
}

#[test]
fn ether_can_cross_threads() {
    let ether = EtherSimulator::new("zone");
    assert!(shared_between_threads(&ether));
}
