//! Protocol codec: decodes an instruction byte plus its fixed-size payload
//! into a typed request, and encodes a typed response into its wire bytes.
//!
//! The byte-level serial reads and writes happen outside the library; the
//! functions here work on plain bytes that have already been received, or
//! produce plain bytes that are still to be sent.

use vstd::prelude::*;

use crate::consts;

verus! {

/// Error taxonomy of the serial link itself. A failed link read or write is
/// fatal to the dispatch loop; the codec functions in this module never fail.
#[derive(Debug, Clone, Hash, PartialEq, Eq, Structural)]
pub enum CommunicationError {
    ReadError,
    WriteError,
}

/// One decoded command frame, consumed by the dispatch loop.
#[derive(Debug, Clone, Hash, PartialEq, Eq, Structural)]
pub enum Request {
    InitTest(u8),
    AnalogWrite(AnalogWritePort, u16),
    AnalogRead(AnalogReadPort),
    DigitalWrite(DigitalPort, u8),
    DigitalRead(DigitalPort),
}

/// Target of an analog write request.
#[derive(Debug, Clone, Hash, PartialEq, Eq, Structural)]
pub enum AnalogWritePort {
    Port1,
    Port2,
}

/// Which physical pin group (side) a digital operation targets.
#[derive(Debug, Clone, Hash, PartialEq, Eq, Structural)]
pub enum DigitalPort {
    Port1,
    Port2,
}

/// One of the 8 logical analog channels. Only the first 6 are wired to
/// physical converter channels; the last two exist to keep the 8-channel
/// address space of the protocol.
#[derive(Debug, Clone, Hash, PartialEq, Eq, Structural)]
pub enum AnalogReadPort {
    Port1,
    Port2,
    Port3,
    Port4,
    Port5,
    Port6,
    Port7,
    Port8,
}

/// One answer frame, produced by the dispatch loop.
#[derive(Debug, Clone, Hash, PartialEq, Eq, Structural)]
pub enum Response {
    Okay,
    Error,
    TestEcho(u8),
    AnalogValue(u16),
    DigitalValue(u8),
}

/// The logical channel number (0 to 7) that an analog port stands for.
pub open spec fn spec_analog_channel(port: AnalogReadPort) -> u8 {
    match port {
        AnalogReadPort::Port1 => 0,
        AnalogReadPort::Port2 => 1,
        AnalogReadPort::Port3 => 2,
        AnalogReadPort::Port4 => 3,
        AnalogReadPort::Port5 => 4,
        AnalogReadPort::Port6 => 5,
        AnalogReadPort::Port7 => 6,
        AnalogReadPort::Port8 => 7,
    }
}

/// The analog port that a channel byte selects, if it is in range.
pub open spec fn spec_analog_port(channel: u8) -> Option<AnalogReadPort> {
    if channel == 0 {
        Some(AnalogReadPort::Port1)
    } else if channel == 1 {
        Some(AnalogReadPort::Port2)
    } else if channel == 2 {
        Some(AnalogReadPort::Port3)
    } else if channel == 3 {
        Some(AnalogReadPort::Port4)
    } else if channel == 4 {
        Some(AnalogReadPort::Port5)
    } else if channel == 5 {
        Some(AnalogReadPort::Port6)
    } else if channel == 6 {
        Some(AnalogReadPort::Port7)
    } else if channel == 7 {
        Some(AnalogReadPort::Port8)
    } else {
        None
    }
}

impl AnalogReadPort {
    /// The logical channel number (0 to 7) of this port.
    pub fn channel(&self) -> (c: u8)
        ensures
            c == spec_analog_channel(*self),
    {
        match self {
            AnalogReadPort::Port1 => 0,
            AnalogReadPort::Port2 => 1,
            AnalogReadPort::Port3 => 2,
            AnalogReadPort::Port4 => 3,
            AnalogReadPort::Port5 => 4,
            AnalogReadPort::Port6 => 5,
            AnalogReadPort::Port7 => 6,
            AnalogReadPort::Port8 => 7,
        }
    }

    /// The port addressed by a channel byte, or `None` beyond channel 7.
    pub fn from_channel(channel: u8) -> (r: Option<AnalogReadPort>)
        ensures
            r == spec_analog_port(channel),
    {
        match channel {
            0 => Some(AnalogReadPort::Port1),
            1 => Some(AnalogReadPort::Port2),
            2 => Some(AnalogReadPort::Port3),
            3 => Some(AnalogReadPort::Port4),
            4 => Some(AnalogReadPort::Port5),
            5 => Some(AnalogReadPort::Port6),
            6 => Some(AnalogReadPort::Port7),
            7 => Some(AnalogReadPort::Port8),
            _ => None,
        }
    }
}

/// Whether an instruction byte belongs to the defined set of the protocol.
pub open spec fn spec_known_instruction(instruction: u8) -> bool {
    ||| instruction == consts::RQ_TEST
    ||| instruction == consts::RQ_ANALOG_WRITE_0
    ||| instruction == consts::RQ_ANALOG_WRITE_1
    ||| instruction == consts::RQ_ANALOG_READ
    ||| instruction == consts::RQ_DIGITAL_WRITE_0
    ||| instruction == consts::RQ_DIGITAL_WRITE_1
    ||| instruction == consts::RQ_DIGITAL_READ_0
    ||| instruction == consts::RQ_DIGITAL_READ_1
}

/// How many payload bytes follow an instruction byte. Unknown instructions
/// carry no payload: the link stays positioned at the next instruction.
pub open spec fn spec_payload_len(instruction: u8) -> nat {
    if instruction == consts::RQ_TEST {
        1
    } else if instruction == consts::RQ_ANALOG_WRITE_0 || instruction == consts::RQ_ANALOG_WRITE_1 {
        2
    } else if instruction == consts::RQ_ANALOG_READ {
        1
    } else if instruction == consts::RQ_DIGITAL_WRITE_0 || instruction == consts::RQ_DIGITAL_WRITE_1 {
        1
    } else {
        0
    }
}

/// The request that one full frame decodes to: `None` for an unknown
/// instruction byte or an out-of-range analog channel.
pub open spec fn spec_decode(instruction: u8, payload: Seq<u8>) -> Option<Request> {
    if instruction == consts::RQ_TEST {
        Some(Request::InitTest(payload[0]))
    } else if instruction == consts::RQ_ANALOG_WRITE_0 || instruction == consts::RQ_ANALOG_WRITE_1 {
        Some(
            Request::AnalogWrite(
                if instruction == consts::RQ_ANALOG_WRITE_0 {
                    AnalogWritePort::Port1
                } else {
                    AnalogWritePort::Port2
                },
                ((payload[1] as u16) << 8 | payload[0] as u16) as u16,
            ),
        )
    } else if instruction == consts::RQ_ANALOG_READ {
        match spec_analog_port(payload[0]) {
            Some(port) => Some(Request::AnalogRead(port)),
            None => None,
        }
    } else if instruction == consts::RQ_DIGITAL_WRITE_0 || instruction == consts::RQ_DIGITAL_WRITE_1 {
        Some(
            Request::DigitalWrite(
                if instruction == consts::RQ_DIGITAL_WRITE_0 {
                    DigitalPort::Port1
                } else {
                    DigitalPort::Port2
                },
                payload[0],
            ),
        )
    } else if instruction == consts::RQ_DIGITAL_READ_0 || instruction == consts::RQ_DIGITAL_READ_1 {
        Some(
            Request::DigitalRead(
                if instruction == consts::RQ_DIGITAL_READ_0 {
                    DigitalPort::Port1
                } else {
                    DigitalPort::Port2
                },
            ),
        )
    } else {
        None
    }
}

/// The wire bytes of a response. Status-less value responses are
/// distinguished by the host purely by length and position in the protocol.
pub open spec fn spec_encode(response: Response) -> Seq<u8> {
    match response {
        Response::Okay => seq![consts::MSG_OK],
        Response::Error => seq![consts::MSG_ERROR],
        Response::TestEcho(value) => seq![consts::MSG_OK, value],
        Response::AnalogValue(value) => seq![(value & 0xFF) as u8, (value >> 8) as u8],
        Response::DigitalValue(value) => seq![value],
    }
}

/// How many payload bytes must be read after `instruction` before
/// [`decode_request`] can run on the frame.
pub fn payload_len(instruction: u8) -> (n: usize)
    ensures
        n == spec_payload_len(instruction),
{
    if instruction == consts::RQ_TEST {
        1
    } else if instruction == consts::RQ_ANALOG_WRITE_0 || instruction == consts::RQ_ANALOG_WRITE_1 {
        2
    } else if instruction == consts::RQ_ANALOG_READ {
        1
    } else if instruction == consts::RQ_DIGITAL_WRITE_0 || instruction == consts::RQ_DIGITAL_WRITE_1 {
        1
    } else {
        0
    }
}

/// Decodes one full frame: the instruction byte and exactly the payload
/// bytes that [`payload_len`] asks for. Returns `None` for an unknown
/// instruction and for an analog channel byte above 7; both are answered
/// with an error response but do not stop the loop.
pub fn decode_request(instruction: u8, payload: &Vec<u8>) -> (r: Option<Request>)
    requires
        payload@.len() == spec_payload_len(instruction),
    ensures
        r == spec_decode(instruction, payload@),
        !spec_known_instruction(instruction) ==> r is None,
{
    if instruction == consts::RQ_TEST {
        Some(Request::InitTest(payload[0]))
    } else if instruction == consts::RQ_ANALOG_WRITE_0 || instruction == consts::RQ_ANALOG_WRITE_1 {
        let port = if instruction == consts::RQ_ANALOG_WRITE_0 {
            AnalogWritePort::Port1
        } else {
            AnalogWritePort::Port2
        };
        let value: u16 = (payload[1] as u16) << 8 | payload[0] as u16;
        Some(Request::AnalogWrite(port, value))
    } else if instruction == consts::RQ_ANALOG_READ {
        match AnalogReadPort::from_channel(payload[0]) {
            Some(port) => Some(Request::AnalogRead(port)),
            None => None,
        }
    } else if instruction == consts::RQ_DIGITAL_WRITE_0 || instruction == consts::RQ_DIGITAL_WRITE_1 {
        let port = if instruction == consts::RQ_DIGITAL_WRITE_0 {
            DigitalPort::Port1
        } else {
            DigitalPort::Port2
        };
        Some(Request::DigitalWrite(port, payload[0]))
    } else if instruction == consts::RQ_DIGITAL_READ_0 || instruction == consts::RQ_DIGITAL_READ_1 {
        let port = if instruction == consts::RQ_DIGITAL_READ_0 {
            DigitalPort::Port1
        } else {
            DigitalPort::Port2
        };
        Some(Request::DigitalRead(port))
    } else {
        None
    }
}

/// Serializes a response to its wire bytes. The caller sends the bytes and
/// then flushes the link, so they are guaranteed out before the loop resumes.
pub fn encode_response(response: Response) -> (r: Vec<u8>)
    ensures
        r@ == spec_encode(response),
{
    match response {
        Response::Okay => {
            let mut out: Vec<u8> = Vec::new();
            out.push(consts::MSG_OK);
            out
        },
        Response::Error => {
            let mut out: Vec<u8> = Vec::new();
            out.push(consts::MSG_ERROR);
            out
        },
        Response::TestEcho(value) => {
            let mut out: Vec<u8> = Vec::new();
            out.push(consts::MSG_OK);
            out.push(value);
            out
        },
        Response::AnalogValue(value) => {
            let mut out: Vec<u8> = Vec::new();
            out.push((value & 0xFF) as u8);
            out.push((value >> 8) as u8);
            out
        },
        Response::DigitalValue(value) => {
            let mut out: Vec<u8> = Vec::new();
            out.push(value);
            out
        },
    }
}

/// Every instruction byte outside the defined set decodes to "no request",
/// never to an error, whatever payload follows it.
pub proof fn lemma_unknown_instruction_gives_no_request(instruction: u8, payload: Seq<u8>)
    requires
        !spec_known_instruction(instruction),
    ensures
        spec_decode(instruction, payload) is None,
{
}

/// The instruction byte that addresses a digital write at a side.
pub open spec fn spec_digital_write_instruction(port: DigitalPort) -> u8 {
    match port {
        DigitalPort::Port1 => consts::RQ_DIGITAL_WRITE_0,
        DigitalPort::Port2 => consts::RQ_DIGITAL_WRITE_1,
    }
}

/// Round trip of a digital write frame: a `DigitalWrite` request's payload
/// on the wire is its value byte alone, and decoding the encoded frame
/// recovers port and value exactly.
pub proof fn lemma_digital_write_round_trip(port: DigitalPort, value: u8)
    ensures
        spec_decode(spec_digital_write_instruction(port), seq![value]) == Some(
            Request::DigitalWrite(port, value),
        ),
{
}

} // verus!
