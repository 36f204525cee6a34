use proto_lab::{IODriver, RadioModuleDriver, WiredModuleDriver};

#[test]
fn test_emtpy_rx_to_network() {
    let mut modem_device = WiredModuleDriver::new();

    modem_device.start_tick();
    assert_eq!(modem_device.get_from_device_network_side(), None);
    modem_device.end_tick();
}

#[test]
fn test_emtpy_tx_from_network() {
    let mut modem_device = WiredModuleDriver::new();

    modem_device.start_tick();
    modem_device.end_tick();

    assert_eq!(modem_device.get_from_tx_pin(), None);
}

#[test]
fn test_rx_pin_to_network() {
    let mut modem_device = WiredModuleDriver::new();
    modem_device.put_to_rx_pin(b'a');
    modem_device.put_to_rx_pin(b'b');

    modem_device.start_tick();
    assert_eq!(modem_device.get_from_device_network_side(), Some(b'a'));
    modem_device.end_tick();

    modem_device.start_tick();
    assert_eq!(modem_device.get_from_device_network_side(), Some(b'b'));
    modem_device.end_tick();

    modem_device.start_tick();
    assert_eq!(modem_device.get_from_device_network_side(), None);
    modem_device.end_tick();
}

#[test]
fn test_tx_pin_from_network() {
    let mut modem_device = WiredModuleDriver::new();
    modem_device.start_tick();
    modem_device.put_to_device_network_side(b'a');
    modem_device.end_tick();

    modem_device.start_tick();
    modem_device.put_to_device_network_side(b'b');
    modem_device.end_tick();

    assert_eq!(modem_device.get_from_tx_pin(), Some(b'a'));
    assert_eq!(modem_device.get_from_tx_pin(), Some(b'b'));
    assert_eq!(modem_device.get_from_tx_pin(), None);
}

#[test]
fn device_test_full_duplex_send_per_tick() {
    let mut modem_device = WiredModuleDriver::new();
    modem_device.start_tick();
    modem_device.put_to_device_network_side(b'a');
    modem_device.put_to_rx_pin(b'b');
    modem_device.end_tick();

    let byte_on_tx_pin = modem_device.get_from_tx_pin();

    modem_device.start_tick();
    assert_eq!(modem_device.get_from_device_network_side(), Some(b'b'));
    modem_device.end_tick();
    assert_eq!(byte_on_tx_pin, Some(b'a'));
}

// Test data collision with overwriting data per same tick
#[test]
fn device_test_data_collision_per_tick() {
    let mut modem_device = WiredModuleDriver::new();
    modem_device.start_tick();
    modem_device.put_to_device_network_side(b'a');
    modem_device.put_to_device_network_side(b'b');
    modem_device.end_tick();
    assert_eq!(modem_device.get_from_tx_pin(), Some(b'b'));
}

#[test]
fn test_emtpy_to_network() {
    let mut modem_device = RadioModuleDriver::new();

    modem_device.start_tick();
    assert_eq!(modem_device.get_from_device_network_side(), None);
    modem_device.end_tick();
}

#[test]
fn test_emtpy_from_network() {
    let mut modem_device = RadioModuleDriver::new();

    modem_device.start_tick();
    modem_device.end_tick();

    assert_eq!(modem_device.get_from_tx_pin(), None);
}

#[test]
fn test_get_from_network() {
    let mut modem_device = RadioModuleDriver::new();
    modem_device.put_to_rx_pin(b'a');
    modem_device.put_to_rx_pin(b'b');

    modem_device.start_tick();
    assert_eq!(modem_device.get_from_device_network_side(), Some(b'a'));
    modem_device.end_tick();

    modem_device.start_tick();
    assert_eq!(modem_device.get_from_device_network_side(), Some(b'b'));
    modem_device.end_tick();

    modem_device.start_tick();
    assert_eq!(modem_device.get_from_device_network_side(), None);
    modem_device.end_tick();
}

#[test]
fn test_put_to_network() {
    let mut modem_device = RadioModuleDriver::new();
    modem_device.start_tick();
    modem_device.put_to_device_network_side(b'a');
    modem_device.end_tick();

    modem_device.start_tick();
    modem_device.put_to_device_network_side(b'b');
    modem_device.end_tick();

    assert_eq!(modem_device.get_from_tx_pin(), Some(b'a'));
    assert_eq!(modem_device.get_from_tx_pin(), Some(b'b'));
    assert_eq!(modem_device.get_from_tx_pin(), None);
}

#[test]
fn radio_modem_test_half_duplex_send_per_tick() {
    let mut modem_device = RadioModuleDriver::new();
    modem_device.start_tick();
    modem_device.put_to_device_network_side(b'a');
    modem_device.put_to_rx_pin(b'b');
    modem_device.end_tick();

    let byte_on_tx_pin = modem_device.get_from_tx_pin();

    modem_device.start_tick();
    assert_eq!(modem_device.get_from_device_network_side(), Some(b'b'));
    modem_device.end_tick();
    assert_eq!(byte_on_tx_pin, Some(b'a'));
}

// Test data collision with overwriting data per same tick
#[test]
fn radio_modem_test_data_collision_per_tick() {
    let mut modem_device = RadioModuleDriver::new();
    modem_device.start_tick();
    modem_device.put_to_device_network_side(b'a');
    modem_device.put_to_device_network_side(b'b');
    modem_device.put_to_device_network_side(b'c');
    modem_device.end_tick();
    assert_eq!(modem_device.get_from_tx_pin(), Some(b'c'));
}

// Test read ready
#[test]
fn test_read_ready() {
    let mut modem_device = RadioModuleDriver::new();
    assert_eq!(modem_device.read_ready(), false);

    modem_device.start_tick();
    modem_device.put_to_device_network_side(b'a');
    modem_device.end_tick();

    assert_eq!(modem_device.read_ready(), true);
}

// Test write ready
#[test]
fn test_write_ready() {
    let modem_device = RadioModuleDriver::new();
    assert_eq!(modem_device.write_ready(), true);
}

// A radio that transmits hears nothing, and its receive queue stays as it was.
#[test]
fn radio_ignores_medium_while_transmitting() {
    let mut modem_device = RadioModuleDriver::new();
    modem_device.put_to_rx_pin(0x41);

    modem_device.start_tick();
    assert_eq!(modem_device.get_from_device_network_side(), Some(0x41));
    modem_device.put_to_device_network_side(0x42);
    modem_device.put_to_device_network_side(0x43);
    assert_eq!(modem_device.get_from_device_network_side(), Some(0x41));
    modem_device.end_tick();

    assert_eq!(modem_device.read_ready(), false);
    assert_eq!(modem_device.get_from_tx_pin(), None);
}

// Without a tick gate every start of a tick takes the next queued byte.
#[test]
fn ungated_start_takes_a_byte_each_time() {
    let mut modem_device = RadioModuleDriver::new();
    modem_device.put_to_rx_pin(1);
    modem_device.put_to_rx_pin(2);

    modem_device.start_tick();
    modem_device.start_tick();
    assert_eq!(modem_device.get_from_device_network_side(), Some(2));
    modem_device.end_tick();

    modem_device.start_tick();
    assert_eq!(modem_device.get_from_device_network_side(), None);
}

// What was heard in a tick that never ended is forgotten when the next starts.
#[test]
fn ungated_start_forgets_what_was_heard() {
    let mut radio = RadioModuleDriver::new();
    radio.start_tick();
    radio.put_to_device_network_side(7);
    radio.start_tick();
    radio.end_tick();
    assert_eq!(radio.get_from_tx_pin(), None);

    let mut wired = WiredModuleDriver::new();
    wired.start_tick();
    wired.put_to_device_network_side(7);
    wired.start_tick();
    wired.end_tick();
    assert_eq!(wired.get_from_tx_pin(), None);
}

// A wired modem hears the medium even while it transmits.
#[test]
fn wired_driver_hears_while_transmitting() {
    let mut modem_device = WiredModuleDriver::new();
    modem_device.put_to_rx_pin(b'a');

    modem_device.start_tick();
    modem_device.put_to_device_network_side(b'b');
    assert_eq!(modem_device.get_from_device_network_side(), Some(b'a'));
    modem_device.end_tick();

    assert_eq!(modem_device.get_from_tx_pin(), Some(b'b'));
    assert_eq!(modem_device.get_from_device_network_side(), None);
}
