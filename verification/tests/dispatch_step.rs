use io_expander::com::{AnalogWritePort, Request, Response};
use io_expander::consts;
use io_expander::dispatch::{handle_request, phase_color, process_frame, LoopPhase};
use io_expander::neopixel::Rgb;
use io_expander::pins::Device;

#[test]
fn end_to_end_test_echo() {
    // [TEST, 0x2A] answers [OK, 0x2A].
    let mut device = Device::new();
    let out = process_frame(&mut device, 0x01, &vec![0x2A]);
    assert_eq!(out, vec![0xFF, 0x2A]);
}

#[test]
fn end_to_end_unwired_analog_channel() {
    // [ANALOG_READ, 7] answers the raw value 0 as two little-endian bytes.
    let mut device = Device::new();
    let out = process_frame(&mut device, 0x0C, &vec![0x07]);
    assert_eq!(out, vec![0x00, 0x00]);
}

#[test]
fn end_to_end_digital_write_then_read() {
    // [DIGITAL_WRITE_1, 0xFF] answers [OK]; the following [DIGITAL_READ_1]
    // answers the raw byte 0xFF.
    let mut device = Device::new();
    let out = process_frame(&mut device, 0x06, &vec![0xFF]);
    assert_eq!(out, vec![0xFF]);
    let out = process_frame(&mut device, 0x08, &Vec::new());
    assert_eq!(out, vec![0xFF]);
}

#[test]
fn unknown_instruction_answers_error() {
    let mut device = Device::new();
    let before = device.clone();
    let out = process_frame(&mut device, consts::RQ_INFO, &Vec::new());
    assert_eq!(out, vec![consts::MSG_ERROR]);
    assert_eq!(device, before);
}

#[test]
fn malformed_analog_channel_answers_error() {
    let mut device = Device::new();
    let out = process_frame(&mut device, consts::RQ_ANALOG_READ, &vec![8]);
    assert_eq!(out, vec![consts::MSG_ERROR]);
}

#[test]
fn analog_write_routes_to_no_operation() {
    // An analog write decodes but matches no resource-manager operation, so
    // it is answered with an error and touches nothing.
    let mut device = Device::new();
    let before = device.clone();
    let response = handle_request(
        &mut device,
        Some(Request::AnalogWrite(AnalogWritePort::Port1, 1234)),
    );
    assert_eq!(response, Response::Error);
    assert_eq!(device, before);
    let out = process_frame(&mut device, consts::RQ_ANALOG_WRITE_0, &vec![0x34, 0x12]);
    assert_eq!(out, vec![consts::MSG_ERROR]);
}

#[test]
fn missing_request_answers_error() {
    let mut device = Device::new();
    let before = device.clone();
    assert_eq!(handle_request(&mut device, None), Response::Error);
    assert_eq!(device, before);
}

#[test]
fn digital_write_acknowledges() {
    let mut device = Device::new();
    let response = handle_request(
        &mut device,
        Some(Request::DigitalWrite(
            io_expander::com::DigitalPort::Port1,
            0x55,
        )),
    );
    assert_eq!(response, Response::Okay);
}

#[test]
fn loop_phases_have_their_colors() {
    assert_eq!(phase_color(&LoopPhase::Startup), Rgb { r: 64, g: 64, b: 0 });
    assert_eq!(phase_color(&LoopPhase::AwaitRequest), Rgb { r: 0, g: 64, b: 0 });
    assert_eq!(phase_color(&LoopPhase::Processing), Rgb { r: 0, g: 0, b: 128 });
    assert_eq!(phase_color(&LoopPhase::Failed), Rgb { r: 64, g: 0, b: 0 });
}
