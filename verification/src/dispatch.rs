//! Dispatch step of the control loop: routes one decoded request to exactly
//! one resource-manager operation and produces the typed response, plus the
//! loop-phase model that drives the status LED. The loop itself — waiting
//! on the serial link, sending the answer bytes, and exiting on a fatal
//! link error — runs outside the library and calls in here once per frame.

use vstd::prelude::*;

use crate::com;
use crate::com::{Request, Response};
use crate::neopixel::Rgb;
use crate::pins;
use crate::pins::Device;

verus! {

/// Top-level failure taxonomy of the device program.
#[derive(Debug, Clone, PartialEq, Eq, Structural)]
pub enum B32Error {
    CreateRuntime,
    Esp32Error,
    CommunicationError,
}

/// Operating phase of the control loop, reflected by the status LED.
#[derive(Debug, Clone, PartialEq, Eq, Structural)]
pub enum LoopPhase {
    Startup,
    AwaitRequest,
    Processing,
    Failed,
}

/// The status LED color of each loop phase.
pub open spec fn spec_phase_color(phase: LoopPhase) -> Rgb {
    match phase {
        LoopPhase::Startup => Rgb { r: 64, g: 64, b: 0 },
        LoopPhase::AwaitRequest => Rgb { r: 0, g: 64, b: 0 },
        LoopPhase::Processing => Rgb { r: 0, g: 0, b: 128 },
        LoopPhase::Failed => Rgb { r: 64, g: 0, b: 0 },
    }
}

/// The color the status LED shows in a loop phase: yellow while starting,
/// green while awaiting a request, blue while processing one, red after a
/// fatal failure.
pub fn phase_color(phase: &LoopPhase) -> (c: Rgb)
    ensures
        c == spec_phase_color(*phase),
{
    match phase {
        LoopPhase::Startup => Rgb::new(64, 64, 0),
        LoopPhase::AwaitRequest => Rgb::new(0, 64, 0),
        LoopPhase::Processing => Rgb::new(0, 0, 128),
        LoopPhase::Failed => Rgb::new(64, 0, 0),
    }
}

/// The device state after one request is processed. A test echo touches no
/// pins; an analog or digital operation first ensures the right mode on the
/// side it targets; a missing or unroutable request leaves the state alone.
pub open spec fn spec_handle_state(d: Device, request: Option<Request>) -> Device {
    match request {
        Some(Request::InitTest(_)) => d,
        Some(Request::AnalogWrite(_, _)) => d,
        Some(Request::AnalogRead(_)) => pins::spec_ensure_analog_a(d),
        Some(Request::DigitalRead(port)) => pins::spec_ensure_digital(d, port),
        Some(Request::DigitalWrite(port, value)) => pins::spec_digital_write(d, port, value),
        None => d,
    }
}

/// The response one request is answered with: an echo for the link test,
/// the read value for reads, a plain acknowledgement for writes, and an
/// error for a missing request or one that routes to no defined operation
/// (analog writes have none).
pub open spec fn spec_handle_response(d: Device, request: Option<Request>) -> Response {
    match request {
        Some(Request::InitTest(value)) => Response::TestEcho(value),
        Some(Request::AnalogWrite(_, _)) => Response::Error,
        Some(Request::AnalogRead(port)) => Response::AnalogValue(pins::spec_analog_read_value(d, port)),
        Some(Request::DigitalRead(port)) => Response::DigitalValue(pins::spec_digital_read_value(d, port)),
        Some(Request::DigitalWrite(_, _)) => Response::Okay,
        None => Response::Error,
    }
}

/// Processes one decoded request against the pin-resource state and returns
/// the typed response to send. A `None` request (unknown instruction or
/// malformed field) degrades to an error response; it never stops the loop.
pub fn handle_request(device: &mut Device, request: Option<Request>) -> (r: Response)
    requires
        pins::spec_counters_ok(*old(device)),
    ensures
        *final(device) == spec_handle_state(*old(device), request),
        r == spec_handle_response(*old(device), request),
{
    match request {
        Some(Request::InitTest(value)) => Response::TestEcho(value),
        Some(Request::AnalogRead(port)) => {
            let value = device.analog_read(port);
            Response::AnalogValue(value)
        },
        Some(Request::DigitalRead(port)) => {
            let value = device.digital_read(port);
            Response::DigitalValue(value)
        },
        Some(Request::DigitalWrite(port, value)) => {
            device.digital_write(port, value);
            Response::Okay
        },
        _ => Response::Error,
    }
}

/// Processes one full frame end to end: decodes the instruction byte and
/// its payload, routes the request, and returns the wire bytes of the
/// response.
pub fn process_frame(device: &mut Device, instruction: u8, payload: &Vec<u8>) -> (out: Vec<u8>)
    requires
        payload@.len() == com::spec_payload_len(instruction),
        pins::spec_counters_ok(*old(device)),
    ensures
        *final(device) == spec_handle_state(*old(device), com::spec_decode(instruction, payload@)),
        out@ == com::spec_encode(
            spec_handle_response(*old(device), com::spec_decode(instruction, payload@)),
        ),
{
    let request = com::decode_request(instruction, payload);
    let response = handle_request(device, request);
    com::encode_response(response)
}

} // verus!
