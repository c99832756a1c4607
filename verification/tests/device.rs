use io_expander::com::{AnalogReadPort, DigitalPort};
use io_expander::pins::{ASidePinDrivers, Device};

#[test]
fn digital_loopback_side_a_keeps_low_seven_bits() {
    let mut device = Device::new();
    device.digital_write(DigitalPort::Port1, 0b1010101);
    assert_eq!(device.digital_read(DigitalPort::Port1), 0b1010101);
    // Bit 7 has no pin on Side A and reads back clear.
    device.digital_write(DigitalPort::Port1, 0xFF);
    assert_eq!(device.digital_read(DigitalPort::Port1), 0x7F);
}

#[test]
fn digital_loopback_side_b_keeps_all_eight_bits() {
    let mut device = Device::new();
    device.digital_write(DigitalPort::Port2, 0b1010101);
    assert_eq!(device.digital_read(DigitalPort::Port2), 0b1010101);
    device.digital_write(DigitalPort::Port2, 0xFF);
    assert_eq!(device.digital_read(DigitalPort::Port2), 0xFF);
}

#[test]
fn fresh_digital_drivers_read_zero() {
    let mut device = Device::new();
    assert_eq!(device.digital_read(DigitalPort::Port1), 0);
    assert_eq!(device.digital_read(DigitalPort::Port2), 0);
    assert_eq!(device.a_digital_inits, 1);
    assert_eq!(device.b_digital_inits, 1);
    assert_eq!(device.a_teardowns, 0);
    assert_eq!(device.b_teardowns, 0);
}

#[test]
fn unwired_analog_channels_read_zero() {
    // Channels 6 and 7 have no physical mapping and return 0 whatever
    // happened before.
    let mut device = Device::new();
    assert_eq!(device.analog_read(AnalogReadPort::Port7), 0);
    assert_eq!(device.analog_read(AnalogReadPort::Port8), 0);
    if let ASidePinDrivers::Analog(ref mut drivers) = device.a_side {
        drivers.set_sample(0, 1000);
        drivers.set_sample(5, 4095);
    } else {
        panic!("analog read must leave Side A in analog mode");
    }
    assert_eq!(device.analog_read(AnalogReadPort::Port1), 1000);
    assert_eq!(device.analog_read(AnalogReadPort::Port6), 4095);
    assert_eq!(device.analog_read(AnalogReadPort::Port7), 0);
    assert_eq!(device.analog_read(AnalogReadPort::Port8), 0);
    device.digital_write(DigitalPort::Port1, 0x7F);
    assert_eq!(device.analog_read(AnalogReadPort::Port7), 0);
    assert_eq!(device.analog_read(AnalogReadPort::Port8), 0);
}

#[test]
fn mode_switch_tears_down_and_reinitializes_each_time() {
    let mut device = Device::new();

    // First digital use materializes the digital driver set.
    device.digital_write(DigitalPort::Port1, 0xFF);
    assert_eq!(device.a_digital_inits, 1);
    assert_eq!(device.a_analog_inits, 0);
    assert_eq!(device.a_teardowns, 0);

    // Digital reuse does not reinitialize.
    device.digital_write(DigitalPort::Port1, 0x00);
    assert_eq!(device.digital_read(DigitalPort::Port1), 0x00);
    assert_eq!(device.a_digital_inits, 1);
    assert_eq!(device.a_teardowns, 0);

    // Switching to analog tears the digital set down and sets up analog.
    device.analog_read(AnalogReadPort::Port1);
    assert_eq!(device.a_analog_inits, 1);
    assert_eq!(device.a_teardowns, 1);

    // Switching back tears the analog set down and sets up digital afresh:
    // the earlier levels are gone.
    assert_eq!(device.digital_read(DigitalPort::Port1), 0);
    assert_eq!(device.a_digital_inits, 2);
    assert_eq!(device.a_teardowns, 2);

    // Side B is independent of Side A's switching.
    assert_eq!(device.b_digital_inits, 0);
    assert_eq!(device.b_teardowns, 0);
}

#[test]
fn analog_samples_reset_when_analog_mode_is_rebuilt() {
    let mut device = Device::new();
    device.analog_read(AnalogReadPort::Port1);
    if let ASidePinDrivers::Analog(ref mut drivers) = device.a_side {
        drivers.set_sample(2, 2222);
    } else {
        panic!("analog read must leave Side A in analog mode");
    }
    assert_eq!(device.analog_read(AnalogReadPort::Port3), 2222);
    device.digital_read(DigitalPort::Port1);
    // The analog driver set was torn down; a fresh one starts at 0.
    assert_eq!(device.analog_read(AnalogReadPort::Port3), 0);
    assert_eq!(device.a_analog_inits, 2);
}
